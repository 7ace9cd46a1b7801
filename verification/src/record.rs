//! Records, their fields, and typed access to a field by name.

use vstd::prelude::*;
use vstd::string::*;
use vstd::utf8::*;
use vstd::std_specs::cmp::PartialEqSpecImpl;
use crate::error::{
    Error, ErrorView, HostType, SourceLoc, SourceLocation, TableGenError, TableGenErrorView,
};
use crate::init::{
    agrees, agrees_ref, narrowed, DagInit, FromInit, ListInit, StringInit, TypedInit,
};

verus! {

/// One definition or class instance of the database.
///
/// Two records are equal when they are the same record, that is, when their
/// handles are equal; their contents are not compared.
#[derive(Debug)]
pub struct Record {
    /// The handle: the identity of this record in its database.
    pub id: u64,
    pub name: StringInit,
    /// Whether the definition was written without a name.
    pub anonymous: bool,
    /// The names of all classes that this record derives from, directly or
    /// through another class.
    pub superclasses: Vec<StringInit>,
    /// The fields, in the order declared.
    pub fields: Vec<RecordValue>,
    pub location: SourceLocation,
}

/// One named field of a record.
#[derive(Debug, PartialEq)]
pub struct RecordValue {
    pub name: StringInit,
    pub init: TypedInit,
    pub location: SourceLocation,
}

impl PartialEq for Record {
    fn eq(&self, other: &Record) -> (r: bool) {
        self.id == other.id
    }
}

impl PartialEqSpecImpl for Record {
    open spec fn obeys_eq_spec() -> bool {
        true
    }

    open spec fn eq_spec(&self, other: &Record) -> bool {
        self.id == other.id
    }
}

impl SourceLoc for Record {
    open spec fn location_spec(&self) -> SourceLocation {
        self.location
    }

    /// Where the record was written.
    fn source_location(&self) -> (l: SourceLocation) {
        self.location
    }
}

impl SourceLoc for RecordValue {
    open spec fn location_spec(&self) -> SourceLocation {
        self.location
    }

    /// Where the field was written.
    fn source_location(&self) -> (l: SourceLocation) {
        self.location
    }
}

/// The index of the first field at or after `from` whose name is the bytes
/// `name`, or the number of fields where there is none.
pub open spec fn first_named(fields: Seq<RecordValue>, name: Seq<u8>, from: int) -> int
    decreases fields.len() - from,
{
    if from < 0 || from >= fields.len() {
        fields.len() as int
    } else if fields[from].name.bytes@ == name {
        from
    } else {
        first_named(fields, name, from + 1)
    }
}

/// A result whose failure, if any, is raised at `location`.
pub open spec fn located<V>(r: Result<V, ErrorView>, location: SourceLocation) -> Result<
    V,
    ErrorView,
> {
    match r {
        Ok(v) => Ok(v),
        Err(e) => Err(e.relocated(location)),
    }
}

impl RecordValue {
    pub fn new(name: StringInit, init: TypedInit, location: SourceLocation) -> (v: RecordValue)
        ensures
            v.name == name,
            v.init == init,
            v.location == location,
    {
        RecordValue { name, init, location }
    }

    /// Gives up the field for the value it holds.
    pub fn into_init(self) -> (init: TypedInit)
        ensures
            init == self.init,
    {
        self.init
    }

    pub open spec fn bit_spec(&self) -> Result<bool, ErrorView> {
        located(self.init.bit_spec(), self.location)
    }

    pub open spec fn bits_spec(&self) -> Result<Seq<bool>, ErrorView> {
        located(self.init.bits_spec(), self.location)
    }

    pub open spec fn int_spec(&self) -> Result<i64, ErrorView> {
        located(self.init.int_spec(), self.location)
    }

    pub open spec fn text_spec(&self, to: HostType) -> Result<Seq<char>, ErrorView> {
        located(self.init.text_spec(to), self.location)
    }

    pub open spec fn def_spec(&self) -> Result<Record, ErrorView> {
        located(self.init.def_spec(), self.location)
    }

    pub open spec fn list_spec(&self) -> Result<ListInit, ErrorView> {
        located(self.init.list_spec(), self.location)
    }

    pub open spec fn dag_spec(&self) -> Result<DagInit, ErrorView> {
        located(self.init.dag_spec(), self.location)
    }

    /// Narrows the field to the host type `T`. A failure is raised at the
    /// field.
    pub fn convert<'a, T: FromInit<'a>>(&'a self) -> (r: Result<T, Error>)
        ensures
            narrowed(r, located(T::narrow_spec(self.init), self.location)),
    {
        match T::narrow(&self.init) {
            Ok(v) => Ok(v),
            Err(e) => Err(e.set_location(self)),
        }
    }
}

impl Record {
    pub fn new(
        id: u64,
        name: StringInit,
        anonymous: bool,
        superclasses: Vec<StringInit>,
        fields: Vec<RecordValue>,
        location: SourceLocation,
    ) -> (r: Record)
        ensures
            r.id == id,
            r.name == name,
            r.anonymous == anonymous,
            r.superclasses == superclasses,
            r.fields == fields,
            r.location == location,
    {
        Record { id, name, anonymous, superclasses, fields, location }
    }

    /// The name as text, or the failure to decode it, raised at the record.
    pub open spec fn name_spec(&self) -> Result<Seq<char>, ErrorView> {
        located(self.name.text_spec(), self.location)
    }

    /// The field called `name`, or the failure to find one, raised at the record.
    pub open spec fn value_spec(&self, name: Seq<char>) -> Result<RecordValue, ErrorView> {
        let i = first_named(self.fields@, encode_utf8(name), 0);
        if i < self.fields@.len() {
            Ok(self.fields@[i])
        } else {
            Err(TableGenErrorView::MissingValue(name).at(self.location))
        }
    }

    pub open spec fn bit_value_spec(&self, name: Seq<char>) -> Result<bool, ErrorView> {
        match self.value_spec(name) {
            Ok(v) => v.bit_spec(),
            Err(e) => Err(e),
        }
    }

    pub open spec fn bits_value_spec(&self, name: Seq<char>) -> Result<Seq<bool>, ErrorView> {
        match self.value_spec(name) {
            Ok(v) => v.bits_spec(),
            Err(e) => Err(e),
        }
    }

    pub open spec fn int_value_spec(&self, name: Seq<char>) -> Result<i64, ErrorView> {
        match self.value_spec(name) {
            Ok(v) => v.int_spec(),
            Err(e) => Err(e),
        }
    }

    pub open spec fn text_value_spec(&self, name: Seq<char>, to: HostType) -> Result<
        Seq<char>,
        ErrorView,
    > {
        match self.value_spec(name) {
            Ok(v) => v.text_spec(to),
            Err(e) => Err(e),
        }
    }

    pub open spec fn def_value_spec(&self, name: Seq<char>) -> Result<Record, ErrorView> {
        match self.value_spec(name) {
            Ok(v) => v.def_spec(),
            Err(e) => Err(e),
        }
    }

    pub open spec fn list_value_spec(&self, name: Seq<char>) -> Result<ListInit, ErrorView> {
        match self.value_spec(name) {
            Ok(v) => v.list_spec(),
            Err(e) => Err(e),
        }
    }

    pub open spec fn dag_value_spec(&self, name: Seq<char>) -> Result<DagInit, ErrorView> {
        match self.value_spec(name) {
            Ok(v) => v.dag_spec(),
            Err(e) => Err(e),
        }
    }

    /// Whether the record derives from a class called `class`.
    pub open spec fn subclass_of_spec(&self, class: Seq<char>) -> bool {
        exists|i: int|
            0 <= i < self.superclasses@.len() && (#[trigger] self.superclasses@[i]).bytes@
                == encode_utf8(class)
    }

    /// Returns the name of the record. Fails with `InvalidEncoding`, raised at
    /// the record, exactly when the name is not valid UTF-8.
    pub fn name(&self) -> (r: Result<&str, Error>)
        ensures
            agrees(r, self.name_spec()),
    {
        match self.name.to_str() {
            Ok(s) => Ok(s),
            Err(e) => Err(e.set_location(self)),
        }
    }

    /// Returns the field with the given name: the first one whose name is
    /// exactly the bytes of `name`. Fails with `MissingValue(name)`, raised at
    /// the record, exactly when there is none.
    pub fn value(&self, name: &str) -> (r: Result<&RecordValue, Error>)
        ensures
            agrees_ref(r, self.value_spec(name@)),
    {
        let mut i: usize = 0;
        while i < self.fields.len()
            invariant
                i <= self.fields@.len(),
                first_named(self.fields@, encode_utf8(name@), 0) == first_named(
                    self.fields@,
                    encode_utf8(name@),
                    i as int,
                ),
            decreases self.fields@.len() - i,
        {
            if self.fields[i].name.eq_str(name) {
                return Ok(&self.fields[i]);
            }
            i += 1;
        }
        Err(TableGenError::MissingValue(name.to_owned()).with_location(self))
    }

    /// Returns the boolean value of the field with the given name if this
    /// field is a `Bit`.
    pub fn bit_value(&self, name: &str) -> (r: Result<bool, Error>)
        ensures
            agrees(r, self.bit_value_spec(name@)),
    {
        match self.value(name) {
            Ok(v) => v.convert::<bool>(),
            Err(e) => Err(e),
        }
    }

    /// Returns the field with the given name as a sequence of booleans if
    /// this field is a `Bits`.
    pub fn bits_value(&self, name: &str) -> (r: Result<Vec<bool>, Error>)
        ensures
            agrees(r, self.bits_value_spec(name@)),
    {
        match self.value(name) {
            Ok(v) => v.convert::<Vec<bool>>(),
            Err(e) => Err(e),
        }
    }

    /// Returns the integer value of the field with the given name if this
    /// field is an `Int`.
    pub fn int_value(&self, name: &str) -> (r: Result<i64, Error>)
        ensures
            agrees(r, self.int_value_spec(name@)),
    {
        match self.value(name) {
            Ok(v) => v.convert::<i64>(),
            Err(e) => Err(e),
        }
    }

    /// Returns a copy of the text of the field with the given name if this
    /// field is a `String` or a `Code`.
    pub fn code_value(&self, name: &str) -> (r: Result<String, Error>)
        ensures
            agrees(r, self.text_value_spec(name@, HostType::String)),
    {
        match self.value(name) {
            Ok(v) => v.convert::<String>(),
            Err(e) => Err(e),
        }
    }

    /// Returns the text of the field with the given name, borrowed, if this
    /// field is a `String` or a `Code`.
    pub fn code_str_value(&self, name: &str) -> (r: Result<&str, Error>)
        ensures
            agrees(r, self.text_value_spec(name@, HostType::Str)),
    {
        match self.value(name) {
            Ok(v) => v.convert::<&str>(),
            Err(e) => Err(e),
        }
    }

    /// Returns a copy of the text of the field with the given name if this
    /// field is a `String` or a `Code`.
    pub fn string_value(&self, name: &str) -> (r: Result<String, Error>)
        ensures
            agrees(r, self.text_value_spec(name@, HostType::String)),
    {
        match self.value(name) {
            Ok(v) => v.convert::<String>(),
            Err(e) => Err(e),
        }
    }

    /// Returns the text of the field with the given name, borrowed, if this
    /// field is a `String` or a `Code`.
    pub fn str_value(&self, name: &str) -> (r: Result<&str, Error>)
        ensures
            agrees(r, self.text_value_spec(name@, HostType::Str)),
    {
        match self.value(name) {
            Ok(v) => v.convert::<&str>(),
            Err(e) => Err(e),
        }
    }

    /// Returns the record that the field with the given name points to if
    /// this field is a `Def`.
    pub fn def_value(&self, name: &str) -> (r: Result<&Record, Error>)
        ensures
            agrees_ref(r, self.def_value_spec(name@)),
    {
        match self.value(name) {
            Ok(v) => v.convert::<&Record>(),
            Err(e) => Err(e),
        }
    }

    /// Returns the list held by the field with the given name if this field
    /// is a `List`.
    pub fn list_value(&self, name: &str) -> (r: Result<&ListInit, Error>)
        ensures
            agrees_ref(r, self.list_value_spec(name@)),
    {
        match self.value(name) {
            Ok(v) => v.convert::<&ListInit>(),
            Err(e) => Err(e),
        }
    }

    /// Returns the DAG expression held by the field with the given name if
    /// this field is a `Dag`.
    pub fn dag_value(&self, name: &str) -> (r: Result<&DagInit, Error>)
        ensures
            agrees_ref(r, self.dag_value_spec(name@)),
    {
        match self.value(name) {
            Ok(v) => v.convert::<&DagInit>(),
            Err(e) => Err(e),
        }
    }

    /// Returns true if the record is anonymous.
    pub fn anonymous(&self) -> (r: bool)
        ensures
            r == self.anonymous,
    {
        self.anonymous
    }

    /// Returns true if the record is a subclass of the class with the given
    /// name. A name that no class has gives false.
    pub fn subclass_of(&self, class: &str) -> (r: bool)
        ensures
            r == self.subclass_of_spec(class@),
    {
        let mut i: usize = 0;
        while i < self.superclasses.len()
            invariant
                i <= self.superclasses@.len(),
                forall|j: int|
                    0 <= j < i ==> (#[trigger] self.superclasses@[j]).bytes@ != encode_utf8(
                        class@,
                    ),
            decreases self.superclasses@.len() - i,
        {
            if self.superclasses[i].eq_str(class) {
                return true;
            }
            i += 1;
        }
        false
    }

    /// Returns a cursor over the fields of the record. It yields every field,
    /// in the order declared, however often this is called.
    pub fn values(&self) -> (it: RecordValueIter<'_>)
        ensures
            it.remaining() == self.fields@,
    {
        RecordValueIter::new(self)
    }
}

/// A forward cursor over the fields of one record, in the order declared.
#[derive(Debug, Clone, Copy)]
pub struct RecordValueIter<'a> {
    record: &'a Record,
    current: usize,
}

impl<'a> RecordValueIter<'a> {
    #[verifier::type_invariant]
    spec fn within(self) -> bool {
        self.current <= self.record.fields@.len()
    }

    /// The fields that the cursor has yet to yield, in order.
    pub closed spec fn remaining(self) -> Seq<RecordValue> {
        self.record.fields@.skip(self.current as int)
    }

    fn new(record: &'a Record) -> (it: RecordValueIter<'a>)
        ensures
            it.remaining() == record.fields@,
    {
        assert(record.fields@.skip(0) =~= record.fields@);
        RecordValueIter { record, current: 0 }
    }

    /// Yields the next field and steps past it, or yields nothing and stays
    /// where it is once every field has been yielded.
    pub fn next(&mut self) -> (r: Option<&'a RecordValue>)
        ensures
            match r {
                Some(value) => old(self).remaining().len() > 0 && *value == old(
                    self,
                ).remaining().first() && final(self).remaining() == old(
                    self,
                ).remaining().drop_first(),
                None => old(self).remaining().len() == 0 && final(self).remaining() == old(
                    self,
                ).remaining(),
            },
    {
        proof {
            use_type_invariant(&*self);
        }
        if self.current < self.record.fields.len() {
            let value = &self.record.fields[self.current];
            assert(self.record.fields@.skip(self.current + 1) =~= self.record.fields@.skip(
                self.current as int,
            ).drop_first());
            self.current = self.current + 1;
            Some(value)
        } else {
            None
        }
    }

    /// The number of fields not yet yielded.
    pub fn count(self) -> (n: usize)
        ensures
            n == self.remaining().len(),
    {
        proof {
            use_type_invariant(&self);
        }
        self.record.fields.len() - self.current
    }

    /// The fields not yet yielded, in the order declared.
    pub fn collect(self) -> (rest: Vec<&'a RecordValue>)
        ensures
            rest@.len() == self.remaining().len(),
            forall|i: int| 0 <= i < rest@.len() ==> *(#[trigger] rest@[i]) == self.remaining()[i],
    {
        proof {
            use_type_invariant(&self);
        }
        let mut rest: Vec<&'a RecordValue> = Vec::new();
        let mut i: usize = self.current;
        while i < self.record.fields.len()
            invariant
                self.current <= i <= self.record.fields@.len(),
                rest@.len() == i - self.current,
                forall|k: int|
                    0 <= k < rest@.len() ==> *(#[trigger] rest@[k]) == self.record.fields@[self.current
                        + k],
            decreases self.record.fields@.len() - i,
        {
            rest.push(&self.record.fields[i]);
            i += 1;
        }
        rest
    }
}

/// What the lookup finds: the result lies between `from` and the number of
/// fields, no field from `from` up to it has the name, and where it is an
/// index the field there has the name.
pub proof fn lemma_first_named(fields: Seq<RecordValue>, name: Seq<u8>, from: int)
    requires
        0 <= from <= fields.len(),
    ensures
        from <= first_named(fields, name, from) <= fields.len(),
        first_named(fields, name, from) < fields.len() ==> fields[first_named(
            fields,
            name,
            from,
        )].name.bytes@ == name,
        forall|j: int|
            from <= j < first_named(fields, name, from) ==> (#[trigger] fields[j]).name.bytes@
                != name,
    decreases fields.len() - from,
{
    if from < fields.len() && fields[from].name.bytes@ != name {
        lemma_first_named(fields, name, from + 1);
    }
}

/// A field that is present is found, and the typed accessor that matches its
/// variant gives the value that the field holds.
pub proof fn lemma_present_field_round_trips(record: Record, name: Seq<char>, index: int)
    requires
        0 <= index < record.fields@.len(),
        record.fields@[index].name.bytes@ == encode_utf8(name),
        forall|j: int|
            0 <= j < index ==> (#[trigger] record.fields@[j]).name.bytes@ != encode_utf8(name),
    ensures
        record.value_spec(name) == Ok::<RecordValue, ErrorView>(record.fields@[index]),
        match record.fields@[index].init {
            TypedInit::Unset => true,
            TypedInit::Bit(b) => record.bit_value_spec(name) == Ok::<bool, ErrorView>(b),
            TypedInit::Bits(bits) => record.bits_value_spec(name) == Ok::<Seq<bool>, ErrorView>(
                bits@,
            ),
            TypedInit::Int(i) => record.int_value_spec(name) == Ok::<i64, ErrorView>(i),
            TypedInit::String(s) | TypedInit::Code(s) => valid_utf8(s.bytes@) ==> forall|
                to: HostType,
            |
                #[trigger] record.text_value_spec(name, to) == Ok::<Seq<char>, ErrorView>(
                    decode_utf8(s.bytes@),
                ),
            TypedInit::List(list) => record.list_value_spec(name) == Ok::<ListInit, ErrorView>(
                list,
            ),
            TypedInit::Dag(dag) => record.dag_value_spec(name) == Ok::<DagInit, ErrorView>(dag),
            TypedInit::Def(target) => record.def_value_spec(name) == Ok::<Record, ErrorView>(
                target,
            ),
        },
{
    lemma_first_named(record.fields@, encode_utf8(name), 0);
}

/// On a name that no field has, the lookup and every typed accessor fail
/// with the same failure: `MissingValue` of that name, raised at the record.
pub proof fn lemma_absent_field_is_missing(record: Record, name: Seq<char>)
    requires
        forall|j: int|
            0 <= j < record.fields@.len() ==> (#[trigger] record.fields@[j]).name.bytes@
                != encode_utf8(name),
    ensures
        record.value_spec(name) == Err::<RecordValue, ErrorView>(
            TableGenErrorView::MissingValue(name).at(record.location),
        ),
        record.bit_value_spec(name) is Err,
        record.bit_value_spec(name)->Err_0 == record.value_spec(name)->Err_0,
        record.bits_value_spec(name) is Err,
        record.bits_value_spec(name)->Err_0 == record.value_spec(name)->Err_0,
        record.int_value_spec(name) is Err,
        record.int_value_spec(name)->Err_0 == record.value_spec(name)->Err_0,
        forall|to: HostType| (#[trigger] record.text_value_spec(name, to)) is Err,
        forall|to: HostType|
            (#[trigger] record.text_value_spec(name, to))->Err_0 == record.value_spec(
                name,
            )->Err_0,
        record.def_value_spec(name) is Err,
        record.def_value_spec(name)->Err_0 == record.value_spec(name)->Err_0,
        record.list_value_spec(name) is Err,
        record.list_value_spec(name)->Err_0 == record.value_spec(name)->Err_0,
        record.dag_value_spec(name) is Err,
        record.dag_value_spec(name)->Err_0 == record.value_spec(name)->Err_0,
{
    lemma_first_named(record.fields@, encode_utf8(name), 0);
}

/// A typed accessor on a field of another variant fails with
/// `InvalidConversion`, which names the variant found and the type asked for
/// and is raised at the field.
pub proof fn lemma_mismatch_is_invalid_conversion(record: Record, name: Seq<char>)
    requires
        record.value_spec(name) is Ok,
    ensures
        ({
            let field = record.value_spec(name)->Ok_0;
            let from = field.init.kind_spec();
            let refused = |to: HostType|
                TableGenErrorView::InvalidConversion { from, to }.at(field.location);
            &&& !(field.init is Bit) ==> record.bit_value_spec(name) == Err::<bool, ErrorView>(
                refused(HostType::Bool),
            )
            &&& !(field.init is Bits) ==> record.bits_value_spec(name) == Err::<
                Seq<bool>,
                ErrorView,
            >(refused(HostType::BoolVec))
            &&& !(field.init is Int) ==> record.int_value_spec(name) == Err::<i64, ErrorView>(
                refused(HostType::Int),
            )
            &&& !(field.init is String) && !(field.init is Code) ==> forall|to: HostType|
                #[trigger] record.text_value_spec(name, to) == Err::<Seq<char>, ErrorView>(
                    refused(to),
                )
            &&& !(field.init is Def) ==> record.def_value_spec(name) == Err::<Record, ErrorView>(
                refused(HostType::Record),
            )
            &&& !(field.init is List) ==> record.list_value_spec(name) == Err::<
                ListInit,
                ErrorView,
            >(refused(HostType::List))
            &&& !(field.init is Dag) ==> record.dag_value_spec(name) == Err::<DagInit, ErrorView>(
                refused(HostType::Dag),
            )
        }),
{
}

} // verus!
