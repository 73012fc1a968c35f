//! Structured parameter schemas and the payloads validated against them.
//!
//! A tool's parameters are described as an object schema: named fields,
//! each of one kind, some of them required.  An invocation payload is a
//! set of named arguments; it conforms when every required field is
//! present and every argument is declared with a matching kind.

use vstd::prelude::*;

verus! {

/// The kind of a schema field.
#[derive(Clone, Copy, PartialEq, Eq, Structural, Debug)]
pub enum JsonKind {
    Boolean,
    Integer,
    Text,
}

/// One named field of an object schema.
pub struct FieldSpec {
    pub name: String,
    pub kind: JsonKind,
}

/// The mathematical value of a `FieldSpec`.
pub struct FieldSpecView {
    pub name: Seq<char>,
    pub kind: JsonKind,
}

impl View for FieldSpec {
    type V = FieldSpecView;

    open spec fn view(&self) -> FieldSpecView {
        FieldSpecView { name: self.name@, kind: self.kind }
    }
}

impl DeepView for FieldSpec {
    type V = FieldSpecView;

    open spec fn deep_view(&self) -> FieldSpecView {
        self@
    }
}

impl Clone for FieldSpec {
    fn clone(&self) -> (r: Self)
        ensures
            r == *self,
    {
        FieldSpec { name: self.name.clone(), kind: self.kind }
    }
}

/// An object schema: the wire contract a provider formats arguments to,
/// and exactly what the registry validates against.
pub struct ParamSchema {
    pub fields: Vec<FieldSpec>,
    pub required: Vec<String>,
}

/// The mathematical value of a `ParamSchema`.
pub struct ParamSchemaView {
    pub fields: Seq<FieldSpecView>,
    pub required: Seq<Seq<char>>,
}

impl View for ParamSchema {
    type V = ParamSchemaView;

    open spec fn view(&self) -> ParamSchemaView {
        ParamSchemaView { fields: self.fields.deep_view(), required: self.required.deep_view() }
    }
}

impl Clone for ParamSchema {
    fn clone(&self) -> (r: Self)
        ensures
            r@ == self@,
    {
        let mut fields: Vec<FieldSpec> = Vec::new();
        let mut i: usize = 0;
        while i < self.fields.len()
            invariant
                0 <= i <= self.fields.len(),
                fields@ =~= self.fields@.take(i as int),
            decreases self.fields.len() - i,
        {
            fields.push(self.fields[i].clone());
            i += 1;
        }
        let mut required: Vec<String> = Vec::new();
        let mut j: usize = 0;
        while j < self.required.len()
            invariant
                0 <= j <= self.required.len(),
                required@ =~= self.required@.take(j as int),
            decreases self.required.len() - j,
        {
            required.push(self.required[j].clone());
            j += 1;
        }
        proof {
            assert(fields@ =~= self.fields@);
            assert(required@ =~= self.required@);
            assert(fields.deep_view() =~= self.fields.deep_view());
            assert(required.deep_view() =~= self.required.deep_view());
        }
        ParamSchema { fields, required }
    }
}

/// One named argument of an invocation payload.
pub struct Arg {
    pub name: String,
    pub value: ArgValue,
}

/// A plain argument value.
pub enum ArgValue {
    Null,
    Boolean(bool),
    Integer(i64),
    Text(String),
}

/// The mathematical value of an `ArgValue`.
pub enum ArgValueView {
    Null,
    Boolean(bool),
    Integer(int),
    Text(Seq<char>),
}

impl View for ArgValue {
    type V = ArgValueView;

    open spec fn view(&self) -> ArgValueView {
        match self {
            ArgValue::Null => ArgValueView::Null,
            ArgValue::Boolean(b) => ArgValueView::Boolean(*b),
            ArgValue::Integer(n) => ArgValueView::Integer(*n as int),
            ArgValue::Text(s) => ArgValueView::Text(s@),
        }
    }
}

impl Clone for ArgValue {
    fn clone(&self) -> (r: Self)
        ensures
            r == *self,
    {
        match self {
            ArgValue::Null => ArgValue::Null,
            ArgValue::Boolean(b) => ArgValue::Boolean(*b),
            ArgValue::Integer(n) => ArgValue::Integer(*n),
            ArgValue::Text(s) => ArgValue::Text(s.clone()),
        }
    }
}

/// The mathematical value of an `Arg`.
pub struct ArgView {
    pub name: Seq<char>,
    pub value: ArgValueView,
}

impl View for Arg {
    type V = ArgView;

    open spec fn view(&self) -> ArgView {
        ArgView { name: self.name@, value: self.value@ }
    }
}

impl DeepView for Arg {
    type V = ArgView;

    open spec fn deep_view(&self) -> ArgView {
        self@
    }
}

impl Clone for Arg {
    fn clone(&self) -> (r: Self)
        ensures
            r == *self,
    {
        Arg { name: self.name.clone(), value: self.value.clone() }
    }
}

/// A whole invocation payload.
pub struct Arguments {
    pub entries: Vec<Arg>,
}

impl View for Arguments {
    type V = Seq<ArgView>;

    open spec fn view(&self) -> Seq<ArgView> {
        self.entries.deep_view()
    }
}

impl Clone for Arguments {
    fn clone(&self) -> (r: Self)
        ensures
            r@ == self@,
    {
        let mut entries: Vec<Arg> = Vec::new();
        let mut i: usize = 0;
        while i < self.entries.len()
            invariant
                0 <= i <= self.entries.len(),
                entries@ =~= self.entries@.take(i as int),
            decreases self.entries.len() - i,
        {
            entries.push(self.entries[i].clone());
            i += 1;
        }
        proof {
            assert(entries@ =~= self.entries@);
            assert(entries.deep_view() =~= self.entries.deep_view());
        }
        Arguments { entries }
    }
}

/// Whether a value is of the given kind.
pub open spec fn kind_matches(kind: JsonKind, value: ArgValueView) -> bool {
    match (kind, value) {
        (JsonKind::Boolean, ArgValueView::Boolean(_)) => true,
        (JsonKind::Integer, ArgValueView::Integer(_)) => true,
        (JsonKind::Text, ArgValueView::Text(_)) => true,
        _ => false,
    }
}

/// Whether the payload holds an argument of the given name.
pub open spec fn arg_named(args: Seq<ArgView>, name: Seq<char>) -> bool {
    exists|j: int| 0 <= j < args.len() && (#[trigger] args[j]).name == name
}

/// Whether one argument is declared by the schema with a matching kind.
pub open spec fn arg_declared(schema: ParamSchemaView, a: ArgView) -> bool {
    exists|i: int|
        0 <= i < schema.fields.len() && (#[trigger] schema.fields[i]).name == a.name
            && kind_matches(schema.fields[i].kind, a.value)
}

/// The conformance contract: every required field is present, and every
/// argument is declared with a matching kind.
pub open spec fn args_conform(schema: ParamSchemaView, args: Seq<ArgView>) -> bool {
    &&& forall|k: int|
        0 <= k < schema.required.len() ==> arg_named(args, #[trigger] schema.required[k])
    &&& forall|j: int| 0 <= j < args.len() ==> arg_declared(schema, #[trigger] args[j])
}

impl ArgValue {
    /// Whether this value is of the given kind.
    pub fn is_of_kind(&self, kind: JsonKind) -> (r: bool)
        ensures
            r == kind_matches(kind, self@),
    {
        match (kind, self) {
            (JsonKind::Boolean, ArgValue::Boolean(_)) => true,
            (JsonKind::Integer, ArgValue::Integer(_)) => true,
            (JsonKind::Text, ArgValue::Text(_)) => true,
            _ => false,
        }
    }
}

impl Arguments {
    /// Whether the payload holds an argument of the given name.
    pub fn has_arg(&self, name: &String) -> (r: bool)
        ensures
            r == arg_named(self@, name@),
    {
        let mut j: usize = 0;
        while j < self.entries.len()
            invariant
                0 <= j <= self.entries.len(),
                forall|k: int| 0 <= k < j ==> (#[trigger] self@[k]).name != name@,
            decreases self.entries.len() - j,
        {
            proof {
                assert(self@[j as int] == self.entries@[j as int]@);
            }
            if self.entries[j].name == *name {
                return true;
            }
            j += 1;
        }
        false
    }
}

impl ParamSchema {
    /// Whether the schema declares an argument of this name and kind.
    pub fn declares(&self, a: &Arg) -> (r: bool)
        ensures
            r == arg_declared(self@, a@),
    {
        let mut i: usize = 0;
        while i < self.fields.len()
            invariant
                0 <= i <= self.fields.len(),
                forall|k: int|
                    0 <= k < i ==> !((#[trigger] self@.fields[k]).name == a@.name && kind_matches(
                        self@.fields[k].kind,
                        a@.value,
                    )),
            decreases self.fields.len() - i,
        {
            proof {
                assert(self@.fields[i as int] == self.fields@[i as int]@);
            }
            if self.fields[i].name == a.name && a.value.is_of_kind(self.fields[i].kind) {
                return true;
            }
            i += 1;
        }
        false
    }

    /// Whether a payload conforms to this schema.
    pub fn accepts(&self, args: &Arguments) -> (r: bool)
        ensures
            r == args_conform(self@, args@),
    {
        let mut k: usize = 0;
        while k < self.required.len()
            invariant
                0 <= k <= self.required.len(),
                forall|m: int| 0 <= m < k ==> arg_named(args@, #[trigger] self@.required[m]),
            decreases self.required.len() - k,
        {
            proof {
                assert(self@.required[k as int] == self.required@[k as int]@);
            }
            if !args.has_arg(&self.required[k]) {
                return false;
            }
            k += 1;
        }
        let mut j: usize = 0;
        while j < args.entries.len()
            invariant
                0 <= j <= args.entries.len(),
                forall|m: int| 0 <= m < self@.required.len() ==> arg_named(args@, #[trigger] self@.required[m]),
                forall|m: int| 0 <= m < j ==> arg_declared(self@, #[trigger] args@[m]),
            decreases args.entries.len() - j,
        {
            proof {
                assert(args@[j as int] == args.entries@[j as int]@);
            }
            if !self.declares(&args.entries[j]) {
                return false;
            }
            j += 1;
        }
        true
    }
}

} // verus!
