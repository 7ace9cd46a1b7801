//! The closed set of typed field values, and their conversions to host types.

use vstd::prelude::*;
use vstd::string::*;
use vstd::utf8::*;
use crate::error::{Error, ErrorView, HostType, InitKind, TableGenError, TableGenErrorView};
use crate::record::Record;

verus! {

/// A string as the database stores it: bytes that are meant to be UTF-8 and are
/// checked only when read as text.
#[derive(Debug, Clone, PartialEq)]
pub struct StringInit {
    pub bytes: Vec<u8>,
}

/// An ordered sequence of field values.
#[derive(Debug, PartialEq)]
pub struct ListInit {
    pub elements: Vec<TypedInit>,
}

/// One argument of a DAG expression: a value and the name it was given, if any.
#[derive(Debug, PartialEq)]
pub struct DagArg {
    pub value: TypedInit,
    pub name: Option<String>,
}

/// A DAG expression: an operator record applied to ordered arguments.
#[derive(Debug, PartialEq)]
pub struct DagInit {
    pub operator: Record,
    pub args: Vec<DagArg>,
}

/// The value of one field. The variant is the value's type.
#[derive(Debug, PartialEq)]
pub enum TypedInit {
    Unset,
    Bit(bool),
    Bits(Vec<bool>),
    Int(i64),
    String(StringInit),
    Code(StringInit),
    List(ListInit),
    Dag(DagInit),
    Def(Record),
}

/// The type tag that the database reports for a value.
#[derive(Debug, Clone, Copy, PartialEq, Eq, Structural)]
pub enum RecTyKind {
    Bit,
    Bits,
    Code,
    Int,
    String,
    List,
    Dag,
    Record,
    Invalid,
}

/// What could be read of a value from the database.
#[derive(Debug, PartialEq)]
pub enum Payload {
    /// Nothing: the value is not set, or not resolved to a concrete one.
    Nothing,
    Bit(bool),
    Bits(Vec<bool>),
    Int(i64),
    Text(Vec<u8>),
    List(Vec<TypedInit>),
    Dag(DagInit),
    Def(Record),
}

impl RecTyKind {
    /// The variant that values of this type tag are held in.
    pub open spec fn kind_spec(self) -> InitKind {
        match self {
            RecTyKind::Bit => InitKind::Bit,
            RecTyKind::Bits => InitKind::Bits,
            RecTyKind::Code => InitKind::Code,
            RecTyKind::Int => InitKind::Int,
            RecTyKind::String => InitKind::String,
            RecTyKind::List => InitKind::List,
            RecTyKind::Dag => InitKind::Dag,
            RecTyKind::Record => InitKind::Def,
            RecTyKind::Invalid => InitKind::Unset,
        }
    }

    pub fn kind(self) -> (k: InitKind)
        ensures
            k == self.kind_spec(),
    {
        match self {
            RecTyKind::Bit => InitKind::Bit,
            RecTyKind::Bits => InitKind::Bits,
            RecTyKind::Code => InitKind::Code,
            RecTyKind::Int => InitKind::Int,
            RecTyKind::String => InitKind::String,
            RecTyKind::List => InitKind::List,
            RecTyKind::Dag => InitKind::Dag,
            RecTyKind::Record => InitKind::Def,
            RecTyKind::Invalid => InitKind::Unset,
        }
    }
}

/// Whether a result is the one that its model gives, the value and the
/// failure each taken by its view.
pub open spec fn agrees<T: View>(r: Result<T, Error>, s: Result<T::V, ErrorView>) -> bool {
    match r {
        Ok(v) => s == Ok::<T::V, ErrorView>(v@),
        Err(e) => s == Err::<T::V, ErrorView>(e@),
    }
}

/// Whether a borrowed result is the one that its model gives.
pub open spec fn agrees_ref<T>(r: Result<&T, Error>, s: Result<T, ErrorView>) -> bool {
    match r {
        Ok(v) => s == Ok::<T, ErrorView>(*v),
        Err(e) => s == Err::<T, ErrorView>(e@),
    }
}

/// The failure of narrowing a value tagged `from` to the host type `to`.
pub open spec fn mismatch(from: InitKind, to: HostType) -> ErrorView {
    TableGenErrorView::InvalidConversion { from, to }.bare()
}

/// `core::str::from_utf8`: the bytes are accepted exactly when they are valid
/// UTF-8, and the text returned is then made of those same bytes.
#[verifier::external_body]
fn text_of_bytes(bytes: &[u8]) -> (r: Option<&str>)
    ensures
        r is Some <==> valid_utf8(bytes@),
        r matches Some(s) ==> s.spec_bytes() == bytes@,
{
    core::str::from_utf8(bytes).ok()
}

impl StringInit {
    pub fn new(bytes: Vec<u8>) -> (s: StringInit)
        ensures
            s.bytes == bytes,
    {
        StringInit { bytes }
    }

    /// Whether the stored bytes are exactly the UTF-8 encoding of `text`.
    pub fn eq_str(&self, text: &str) -> (r: bool)
        ensures
            r == (self.bytes@ == encode_utf8(text@)),
    {
        let mine = self.bytes.as_slice();
        let theirs = text.as_bytes();
        if mine.len() != theirs.len() {
            return false;
        }
        let mut i: usize = 0;
        while i < mine.len()
            invariant
                mine@ == self.bytes@,
                theirs@ == encode_utf8(text@),
                mine@.len() == theirs@.len(),
                i <= mine@.len(),
                forall|j: int| 0 <= j < i ==> mine@[j] == theirs@[j],
            decreases mine@.len() - i,
        {
            if mine[i] != theirs[i] {
                return false;
            }
            i += 1;
        }
        assert(mine@ =~= theirs@);
        true
    }

    /// The text that the bytes encode, or the failure to decode them.
    pub open spec fn text_spec(&self) -> Result<Seq<char>, ErrorView> {
        if valid_utf8(self.bytes@) {
            Ok(decode_utf8(self.bytes@))
        } else {
            Err(TableGenErrorView::InvalidEncoding.bare())
        }
    }

    /// Reads the bytes as text. Fails with `InvalidEncoding` exactly when they
    /// are not valid UTF-8.
    pub fn to_str(&self) -> (r: Result<&str, Error>)
        ensures
            agrees(r, self.text_spec()),
    {
        match text_of_bytes(self.bytes.as_slice()) {
            Some(s) => {
                proof {
                    encode_utf8_decode_utf8(s@);
                }
                Ok(s)
            },
            None => Err(Error::new(TableGenError::InvalidEncoding)),
        }
    }
}

impl TypedInit {
    /// The tag of this value.
    pub open spec fn kind_spec(&self) -> InitKind {
        match self {
            TypedInit::Unset => InitKind::Unset,
            TypedInit::Bit(_) => InitKind::Bit,
            TypedInit::Bits(_) => InitKind::Bits,
            TypedInit::Int(_) => InitKind::Int,
            TypedInit::String(_) => InitKind::String,
            TypedInit::Code(_) => InitKind::Code,
            TypedInit::List(_) => InitKind::List,
            TypedInit::Dag(_) => InitKind::Dag,
            TypedInit::Def(_) => InitKind::Def,
        }
    }

    pub open spec fn bit_spec(&self) -> Result<bool, ErrorView> {
        match self {
            TypedInit::Bit(b) => Ok(*b),
            _ => Err(mismatch(self.kind_spec(), HostType::Bool)),
        }
    }

    pub open spec fn bits_spec(&self) -> Result<Seq<bool>, ErrorView> {
        match self {
            TypedInit::Bits(bits) => Ok(bits@),
            _ => Err(mismatch(self.kind_spec(), HostType::BoolVec)),
        }
    }

    pub open spec fn int_spec(&self) -> Result<i64, ErrorView> {
        match self {
            TypedInit::Int(i) => Ok(*i),
            _ => Err(mismatch(self.kind_spec(), HostType::Int)),
        }
    }

    /// The text of a string or code value; `to` is the host type asked for.
    pub open spec fn text_spec(&self, to: HostType) -> Result<Seq<char>, ErrorView> {
        match self {
            TypedInit::String(s) => s.text_spec(),
            TypedInit::Code(s) => s.text_spec(),
            _ => Err(mismatch(self.kind_spec(), to)),
        }
    }

    pub open spec fn def_spec(&self) -> Result<Record, ErrorView> {
        match self {
            TypedInit::Def(record) => Ok(*record),
            _ => Err(mismatch(self.kind_spec(), HostType::Record)),
        }
    }

    pub open spec fn list_spec(&self) -> Result<ListInit, ErrorView> {
        match self {
            TypedInit::List(list) => Ok(*list),
            _ => Err(mismatch(self.kind_spec(), HostType::List)),
        }
    }

    pub open spec fn dag_spec(&self) -> Result<DagInit, ErrorView> {
        match self {
            TypedInit::Dag(dag) => Ok(*dag),
            _ => Err(mismatch(self.kind_spec(), HostType::Dag)),
        }
    }

    /// The value that a type tag and what was read under it stand for: the
    /// variant of the tag where the payload is of the tag's type, and `Unset`
    /// where it is not or where the tag is `Invalid`.
    pub open spec fn classify_spec(tag: RecTyKind, payload: Payload) -> TypedInit {
        match (tag, payload) {
            (RecTyKind::Bit, Payload::Bit(b)) => TypedInit::Bit(b),
            (RecTyKind::Bits, Payload::Bits(bits)) => TypedInit::Bits(bits),
            (RecTyKind::Int, Payload::Int(i)) => TypedInit::Int(i),
            (RecTyKind::String, Payload::Text(bytes)) => TypedInit::String(StringInit { bytes }),
            (RecTyKind::Code, Payload::Text(bytes)) => TypedInit::Code(StringInit { bytes }),
            (RecTyKind::List, Payload::List(elements)) => TypedInit::List(ListInit { elements }),
            (RecTyKind::Dag, Payload::Dag(dag)) => TypedInit::Dag(dag),
            (RecTyKind::Record, Payload::Def(record)) => TypedInit::Def(record),
            _ => TypedInit::Unset,
        }
    }

    /// Wraps what was read of a value in the variant of its type tag. This
    /// never fails: every tag with every payload gives exactly one variant.
    pub fn classify(tag: RecTyKind, payload: Payload) -> (init: TypedInit)
        ensures
            init == Self::classify_spec(tag, payload),
            init.kind_spec() == tag.kind_spec() || init.kind_spec() == InitKind::Unset,
    {
        match (tag, payload) {
            (RecTyKind::Bit, Payload::Bit(b)) => TypedInit::Bit(b),
            (RecTyKind::Bits, Payload::Bits(bits)) => TypedInit::Bits(bits),
            (RecTyKind::Int, Payload::Int(i)) => TypedInit::Int(i),
            (RecTyKind::String, Payload::Text(bytes)) => TypedInit::String(StringInit { bytes }),
            (RecTyKind::Code, Payload::Text(bytes)) => TypedInit::Code(StringInit { bytes }),
            (RecTyKind::List, Payload::List(elements)) => TypedInit::List(ListInit { elements }),
            (RecTyKind::Dag, Payload::Dag(dag)) => TypedInit::Dag(dag),
            (RecTyKind::Record, Payload::Def(record)) => TypedInit::Def(record),
            _ => TypedInit::Unset,
        }
    }

    /// The tag of this value: every value has exactly one.
    pub fn kind(&self) -> (k: InitKind)
        ensures
            k == self.kind_spec(),
    {
        match self {
            TypedInit::Unset => InitKind::Unset,
            TypedInit::Bit(_) => InitKind::Bit,
            TypedInit::Bits(_) => InitKind::Bits,
            TypedInit::Int(_) => InitKind::Int,
            TypedInit::String(_) => InitKind::String,
            TypedInit::Code(_) => InitKind::Code,
            TypedInit::List(_) => InitKind::List,
            TypedInit::Dag(_) => InitKind::Dag,
            TypedInit::Def(_) => InitKind::Def,
        }
    }

    /// The failure of narrowing this value to `to`.
    fn refuse(&self, to: HostType) -> (e: Error)
        ensures
            e@ == mismatch(self.kind_spec(), to),
    {
        Error::new(TableGenError::InvalidConversion { from: self.kind(), to })
    }

    /// The boolean of a `Bit`; any other variant is a conversion failure.
    pub fn as_bit(&self) -> (r: Result<bool, Error>)
        ensures
            agrees(r, self.bit_spec()),
    {
        match self {
            TypedInit::Bit(b) => Ok(*b),
            _ => Err(self.refuse(HostType::Bool)),
        }
    }

    /// The booleans of a `Bits`, in the order stored; any other variant is a
    /// conversion failure.
    pub fn as_bits(&self) -> (r: Result<Vec<bool>, Error>)
        ensures
            agrees(r, self.bits_spec()),
    {
        match self {
            TypedInit::Bits(bits) => {
                let mut copy: Vec<bool> = Vec::new();
                let mut i: usize = 0;
                while i < bits.len()
                    invariant
                        i <= bits.len(),
                        copy@ == bits@.take(i as int),
                    decreases bits.len() - i,
                {
                    copy.push(bits[i]);
                    i += 1;
                    assert(copy@ =~= bits@.take(i as int));
                }
                assert(bits@.take(i as int) =~= bits@);
                Ok(copy)
            },
            _ => Err(self.refuse(HostType::BoolVec)),
        }
    }

    /// The integer of an `Int`; any other variant is a conversion failure.
    pub fn as_int(&self) -> (r: Result<i64, Error>)
        ensures
            agrees(r, self.int_spec()),
    {
        match self {
            TypedInit::Int(i) => Ok(*i),
            _ => Err(self.refuse(HostType::Int)),
        }
    }

    /// The text of a `String` or a `Code`, borrowed. Fails with
    /// `InvalidEncoding` where the bytes are not UTF-8; any other variant is a
    /// conversion failure.
    pub fn as_str(&self) -> (r: Result<&str, Error>)
        ensures
            agrees(r, self.text_spec(HostType::Str)),
    {
        match self {
            TypedInit::String(s) => s.to_str(),
            TypedInit::Code(s) => s.to_str(),
            _ => Err(self.refuse(HostType::Str)),
        }
    }

    /// The text of a `String` or a `Code`, copied.
    pub fn as_string(&self) -> (r: Result<String, Error>)
        ensures
            agrees(r, self.text_spec(HostType::String)),
    {
        let text = match self {
            TypedInit::String(s) => s.to_str(),
            TypedInit::Code(s) => s.to_str(),
            _ => Err(self.refuse(HostType::String)),
        };
        match text {
            Ok(s) => Ok(s.to_owned()),
            Err(e) => Err(e),
        }
    }

    /// The record that a `Def` points to; any other variant is a conversion
    /// failure.
    pub fn as_def(&self) -> (r: Result<&Record, Error>)
        ensures
            agrees_ref(r, self.def_spec()),
    {
        match self {
            TypedInit::Def(record) => Ok(record),
            _ => Err(self.refuse(HostType::Record)),
        }
    }

    /// The list of a `List`; any other variant is a conversion failure.
    pub fn as_list(&self) -> (r: Result<&ListInit, Error>)
        ensures
            agrees_ref(r, self.list_spec()),
    {
        match self {
            TypedInit::List(list) => Ok(list),
            _ => Err(self.refuse(HostType::List)),
        }
    }

    /// The expression of a `Dag`; any other variant is a conversion failure.
    pub fn as_dag(&self) -> (r: Result<&DagInit, Error>)
        ensures
            agrees_ref(r, self.dag_spec()),
    {
        match self {
            TypedInit::Dag(dag) => Ok(dag),
            _ => Err(self.refuse(HostType::Dag)),
        }
    }
}

/// A host type that a field value can be narrowed to.
///
/// `narrow_spec` says which values narrow to the type and to what, and
/// `narrow` does it. `model` is the mathematical value of a host value.
pub trait FromInit<'a>: Sized {
    type Model;

    spec fn model(&self) -> Self::Model;

    spec fn narrow_spec(init: TypedInit) -> Result<Self::Model, ErrorView>;

    fn narrow(init: &'a TypedInit) -> (r: Result<Self, Error>)
        ensures
            match r {
                Ok(v) => Self::narrow_spec(*init) == Ok::<Self::Model, ErrorView>(v.model()),
                Err(e) => Self::narrow_spec(*init) == Err::<Self::Model, ErrorView>(e@),
            },
    ;
}

/// Whether a narrowed result is the one that its model gives.
pub open spec fn narrowed<'a, T: FromInit<'a>>(
    r: Result<T, Error>,
    s: Result<T::Model, ErrorView>,
) -> bool {
    match r {
        Ok(v) => s == Ok::<T::Model, ErrorView>(v.model()),
        Err(e) => s == Err::<T::Model, ErrorView>(e@),
    }
}

impl<'a> FromInit<'a> for bool {
    type Model = bool;

    open spec fn model(&self) -> bool {
        *self
    }

    open spec fn narrow_spec(init: TypedInit) -> Result<bool, ErrorView> {
        init.bit_spec()
    }

    fn narrow(init: &'a TypedInit) -> (r: Result<bool, Error>) {
        init.as_bit()
    }
}

impl<'a> FromInit<'a> for Vec<bool> {
    type Model = Seq<bool>;

    open spec fn model(&self) -> Seq<bool> {
        self@
    }

    open spec fn narrow_spec(init: TypedInit) -> Result<Seq<bool>, ErrorView> {
        init.bits_spec()
    }

    fn narrow(init: &'a TypedInit) -> (r: Result<Vec<bool>, Error>) {
        init.as_bits()
    }
}

impl<'a> FromInit<'a> for i64 {
    type Model = i64;

    open spec fn model(&self) -> i64 {
        *self
    }

    open spec fn narrow_spec(init: TypedInit) -> Result<i64, ErrorView> {
        init.int_spec()
    }

    fn narrow(init: &'a TypedInit) -> (r: Result<i64, Error>) {
        init.as_int()
    }
}

impl<'a> FromInit<'a> for String {
    type Model = Seq<char>;

    open spec fn model(&self) -> Seq<char> {
        self@
    }

    open spec fn narrow_spec(init: TypedInit) -> Result<Seq<char>, ErrorView> {
        init.text_spec(HostType::String)
    }

    fn narrow(init: &'a TypedInit) -> (r: Result<String, Error>) {
        init.as_string()
    }
}

impl<'a> FromInit<'a> for &'a str {
    type Model = Seq<char>;

    open spec fn model(&self) -> Seq<char> {
        self@
    }

    open spec fn narrow_spec(init: TypedInit) -> Result<Seq<char>, ErrorView> {
        init.text_spec(HostType::Str)
    }

    fn narrow(init: &'a TypedInit) -> (r: Result<&'a str, Error>) {
        init.as_str()
    }
}

impl<'a> FromInit<'a> for &'a Record {
    type Model = Record;

    open spec fn model(&self) -> Record {
        **self
    }

    open spec fn narrow_spec(init: TypedInit) -> Result<Record, ErrorView> {
        init.def_spec()
    }

    fn narrow(init: &'a TypedInit) -> (r: Result<&'a Record, Error>) {
        init.as_def()
    }
}

impl<'a> FromInit<'a> for &'a ListInit {
    type Model = ListInit;

    open spec fn model(&self) -> ListInit {
        **self
    }

    open spec fn narrow_spec(init: TypedInit) -> Result<ListInit, ErrorView> {
        init.list_spec()
    }

    fn narrow(init: &'a TypedInit) -> (r: Result<&'a ListInit, Error>) {
        init.as_list()
    }
}

impl<'a> FromInit<'a> for &'a DagInit {
    type Model = DagInit;

    open spec fn model(&self) -> DagInit {
        **self
    }

    open spec fn narrow_spec(init: TypedInit) -> Result<DagInit, ErrorView> {
        init.dag_spec()
    }

    fn narrow(init: &'a TypedInit) -> (r: Result<&'a DagInit, Error>) {
        init.as_dag()
    }
}

/// The mathematical values of a sequence of host values.
pub open spec fn models<'a, T: FromInit<'a>>(values: Seq<T>) -> Seq<T::Model> {
    values.map_values(|v: T| v.model())
}

/// Converts every element in turn and stops at the first that fails: the
/// values of all elements in order, or the failure of the first element that
/// does not convert.
pub open spec fn each<V>(
    elements: Seq<TypedInit>,
    convert: spec_fn(TypedInit) -> Result<V, ErrorView>,
) -> Result<Seq<V>, ErrorView>
    decreases elements.len(),
{
    if elements.len() == 0 {
        Ok(Seq::empty())
    } else {
        match each(elements.drop_last(), convert) {
            Err(e) => Err(e),
            Ok(values) => match convert(elements.last()) {
                Ok(v) => Ok(values.push(v)),
                Err(e) => Err(e),
            },
        }
    }
}

impl ListInit {
    pub fn new(elements: Vec<TypedInit>) -> (l: ListInit)
        ensures
            l.elements == elements,
    {
        ListInit { elements }
    }

    /// The number of elements.
    pub fn len(&self) -> (n: usize)
        ensures
            n == self.elements@.len(),
    {
        self.elements.len()
    }

    pub fn is_empty(&self) -> (b: bool)
        ensures
            b == (self.elements@.len() == 0),
    {
        self.elements.len() == 0
    }

    /// The element at `index`, if there is one.
    pub fn get(&self, index: usize) -> (r: Option<&TypedInit>)
        ensures
            index < self.elements@.len() ==> r == Some(&self.elements@[index as int]),
            index >= self.elements@.len() ==> r is None,
    {
        if index < self.elements.len() {
            Some(&self.elements[index])
        } else {
            None
        }
    }

    /// Every element narrowed to `T`, in order, or the failure of the first
    /// element that does not narrow. Nothing is returned of the elements
    /// before a failure.
    pub fn convert<'a, T: FromInit<'a>>(&'a self) -> (r: Result<Vec<T>, Error>)
        ensures
            match r {
                Ok(values) => each(self.elements@, |e: TypedInit| T::narrow_spec(e)) == Ok::<
                    Seq<T::Model>,
                    ErrorView,
                >(models(values@)),
                Err(e) => each(self.elements@, |e: TypedInit| T::narrow_spec(e)) == Err::<
                    Seq<T::Model>,
                    ErrorView,
                >(e@),
            },
    {
        let ghost narrow = |e: TypedInit| T::narrow_spec(e);
        let mut out: Vec<T> = Vec::new();
        let mut i: usize = 0;
        assert(self.elements@.take(0) =~= Seq::empty());
        assert(models(out@) =~= Seq::<T::Model>::empty());
        while i < self.elements.len()
            invariant
                i <= self.elements@.len(),
                narrow == |e: TypedInit| T::narrow_spec(e),
                each(self.elements@.take(i as int), narrow) == Ok::<Seq<T::Model>, ErrorView>(
                    models(out@),
                ),
            decreases self.elements@.len() - i,
        {
            assert(self.elements@.take(i + 1).drop_last() =~= self.elements@.take(i as int));
            let ghost before = out@;
            match T::narrow(&self.elements[i]) {
                Ok(v) => {
                    out.push(v);
                    assert(models(out@) =~= models(before).push(v.model()));
                },
                Err(e) => {
                    proof {
                        lemma_each_fails_on(self.elements@, narrow, i as int);
                    }
                    return Err(e);
                },
            }
            i += 1;
        }
        assert(self.elements@.take(i as int) =~= self.elements@);
        Ok(out)
    }
}

/// Where the elements before `at` convert and the one at `at` fails, the
/// whole list fails with that element's failure.
pub proof fn lemma_each_fails_on<V>(
    elements: Seq<TypedInit>,
    convert: spec_fn(TypedInit) -> Result<V, ErrorView>,
    at: int,
)
    requires
        0 <= at < elements.len(),
        each(elements.take(at), convert) is Ok,
        convert(elements[at]) is Err,
    ensures
        each(elements, convert) == Err::<Seq<V>, ErrorView>(convert(elements[at])->Err_0),
    decreases elements.len(),
{
    if at == elements.len() - 1 {
        assert(elements.drop_last() =~= elements.take(at));
    } else {
        let shorter = elements.drop_last();
        assert(shorter.take(at) =~= elements.take(at));
        lemma_each_fails_on(shorter, convert, at);
    }
}

/// A list converts exactly when every element does, and then to the elements'
/// values in order.
pub proof fn lemma_each_converts_all<V>(
    elements: Seq<TypedInit>,
    convert: spec_fn(TypedInit) -> Result<V, ErrorView>,
)
    ensures
        each(elements, convert) is Ok <==> forall|i: int|
            0 <= i < elements.len() ==> (#[trigger] convert(elements[i])) is Ok,
        each(elements, convert) matches Ok(values) ==> values.len() == elements.len() && forall|
            i: int,
        |
            0 <= i < elements.len() ==> #[trigger] convert(elements[i]) == Ok::<V, ErrorView>(
                values[i],
            ),
    decreases elements.len(),
{
    if elements.len() > 0 {
        let shorter = elements.drop_last();
        lemma_each_converts_all(shorter, convert);
        assert(forall|i: int| 0 <= i < shorter.len() ==> shorter[i] == elements[i]);
        if each(shorter, convert) is Ok && convert(elements.last()) is Ok {
            assert forall|i: int| 0 <= i < elements.len() implies (#[trigger] convert(
                elements[i],
            )) is Ok by {
                if i < shorter.len() {
                    assert(shorter[i] == elements[i]);
                }
            }
        } else if each(shorter, convert) is Err {
            let k = choose|k: int| 0 <= k < shorter.len() && !(#[trigger] convert(shorter[k]) is Ok);
            assert(shorter[k] == elements[k]);
        }
    }
}

impl DagInit {
    pub fn new(operator: Record, args: Vec<DagArg>) -> (d: DagInit)
        ensures
            d.operator == operator,
            d.args == args,
    {
        DagInit { operator, args }
    }

    /// The record that the expression applies.
    pub fn operator(&self) -> (r: &Record)
        ensures
            *r == self.operator,
    {
        &self.operator
    }

    /// The number of arguments.
    pub fn num_args(&self) -> (n: usize)
        ensures
            n == self.args@.len(),
    {
        self.args.len()
    }

    /// The value of the argument at `index`, if there is one.
    pub fn get(&self, index: usize) -> (r: Option<&TypedInit>)
        ensures
            index < self.args@.len() ==> r == Some(&self.args@[index as int].value),
            index >= self.args@.len() ==> r is None,
    {
        if index < self.args.len() {
            Some(&self.args[index].value)
        } else {
            None
        }
    }

    /// The name given to the argument at `index`, if there is such an
    /// argument and it was given one.
    pub fn name(&self, index: usize) -> (r: Option<&str>)
        ensures
            match r {
                Some(s) => index < self.args@.len() && self.args@[index as int].name is Some
                    && self.args@[index as int].name->0@ == s@,
                None => index >= self.args@.len() || self.args@[index as int].name is None,
            },
    {
        if index < self.args.len() {
            match &self.args[index].name {
                Some(n) => Some(n.as_str()),
                None => None,
            }
        } else {
            None
        }
    }
}

} // verus!
