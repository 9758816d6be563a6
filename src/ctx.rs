use vstd::prelude::*;

use crate::block::{Block, BlockInfo, Case, CaseInfo, Statement, Terminator};
use crate::field::{Field, FieldInfo};
use crate::function::{Function, FunctionInfo};
use crate::location::{Location, LocationInfo};
use crate::parameter::Parameter;
use crate::prim::{PrimitiveKind, NUM_PRIMITIVES};
use crate::rvalue::{RValue, ValueInfo, ValueKind};
use crate::structs::{CompoundInfo, Struct};
use crate::ty::{Type, TypeKind, Typeable};

verus! {

/// The optimization level that the engine uses when it compiles.
#[derive(Clone, Copy, PartialEq, Eq, Structural, Debug)]
pub enum OptimizationLevel {
    /// No optimization.
    NoOptimization,
    /// Optimizations that cost little compile time.
    Limited,
    /// Every optimization that does not trade code size for speed.
    Standard,
    /// Everything of `Standard`, plus inlining, vectorization and unrolling.
    Aggressive,
}

/// The kind of file that compiling to a file writes.
#[derive(Clone, Copy, PartialEq, Eq, Structural, Debug)]
pub enum OutputKind {
    Assembler,
    ObjectFile,
    DynamicLibrary,
    Executable,
}

/// The compiler configuration that a context holds.
#[derive(Clone, Copy, PartialEq, Eq, Structural, Debug)]
pub struct Settings {
    pub opt_level: OptimizationLevel,
    pub dump_initial_gimple: bool,
    pub dump_generated_code: bool,
    /// The program name, an index into the context's strings.
    pub program_name: Option<usize>,
}

/// A misuse of the builder that the engine would reject. The context keeps
/// the first one, and a context that holds one does not compile.
#[derive(Clone, Copy, PartialEq, Eq, Structural, Debug)]
pub enum ContextError {
    /// A statement or a second terminator was added to a terminated block.
    BlockTerminated(Block),
    /// Fields were set on a struct that already had them.
    FieldsAlreadySet(Struct),
    /// A field was placed in a second composite type.
    FieldInUse(Field),
    /// A value that is not a pointer or an array was dereferenced or indexed.
    NotDereferenceable(RValue),
    /// A value that is not a function pointer was called.
    NotAFunctionPointer(RValue),
}

/// Why a context cannot be compiled.
#[derive(Clone, Copy, PartialEq, Eq, Structural, Debug)]
pub enum CompileError {
    /// The first misuse that the context recorded.
    Recorded(ContextError),
    /// A block that was never terminated.
    UnterminatedBlock(Block),
}

/// Everything a context has recorded, as mathematical sequences. Handles are
/// positions in these sequences.
pub ghost struct ContextModel {
    pub types: Seq<TypeKind>,
    pub type_lists: Seq<Seq<Type>>,
    pub structs: Seq<CompoundInfo>,
    pub fields: Seq<FieldInfo>,
    pub field_lists: Seq<Seq<Field>>,
    pub locations: Seq<LocationInfo>,
    pub functions: Seq<FunctionInfo>,
    pub param_lists: Seq<Seq<Parameter>>,
    pub values: Seq<ValueInfo>,
    pub value_lists: Seq<Seq<RValue>>,
    pub blocks: Seq<BlockInfo>,
    pub statements: Seq<Seq<Statement>>,
    pub cases: Seq<CaseInfo>,
    pub case_lists: Seq<Seq<Case>>,
    pub strings: Seq<Seq<char>>,
    pub settings: Settings,
    pub command_line_options: Seq<usize>,
    pub driver_options: Seq<usize>,
    pub first_error: Option<ContextError>,
}

/// The arena that owns every object of the intermediate representation that
/// is created through it, and the compiler configuration.
///
/// A child context (`new_child_context`) borrows its parent for its whole
/// life and starts with all of the parent's objects, so that what it builds
/// may refer to them.
pub struct Context<'a> {
    pub(crate) marker: std::marker::PhantomData<&'a ()>,
    pub(crate) types: Vec<TypeKind>,
    pub(crate) type_lists: Vec<Vec<Type>>,
    pub(crate) structs: Vec<CompoundInfo>,
    pub(crate) fields: Vec<FieldInfo>,
    pub(crate) field_lists: Vec<Vec<Field>>,
    pub(crate) locations: Vec<LocationInfo>,
    pub(crate) functions: Vec<FunctionInfo>,
    pub(crate) param_lists: Vec<Vec<Parameter>>,
    pub(crate) values: Vec<ValueInfo>,
    pub(crate) value_lists: Vec<Vec<RValue>>,
    pub(crate) blocks: Vec<BlockInfo>,
    pub(crate) statements: Vec<Vec<Statement>>,
    pub(crate) cases: Vec<CaseInfo>,
    pub(crate) case_lists: Vec<Vec<Case>>,
    pub(crate) strings: Vec<String>,
    pub(crate) settings: Settings,
    pub(crate) command_line_options: Vec<usize>,
    pub(crate) driver_options: Vec<usize>,
    pub(crate) first_error: Option<ContextError>,
}

impl<'a> View for Context<'a> {
    type V = ContextModel;

    open(crate) spec fn view(&self) -> ContextModel {
        ContextModel {
            types: self.types@,
            type_lists: self.type_lists@.map_values(|l: Vec<Type>| l@),
            structs: self.structs@,
            fields: self.fields@,
            field_lists: self.field_lists@.map_values(|l: Vec<Field>| l@),
            locations: self.locations@,
            functions: self.functions@,
            param_lists: self.param_lists@.map_values(|l: Vec<Parameter>| l@),
            values: self.values@,
            value_lists: self.value_lists@.map_values(|l: Vec<RValue>| l@),
            blocks: self.blocks@,
            statements: self.statements@.map_values(|l: Vec<Statement>| l@),
            cases: self.cases@,
            case_lists: self.case_lists@.map_values(|l: Vec<Case>| l@),
            strings: self.strings@.map_values(|s: String| s@),
            settings: self.settings,
            command_line_options: self.command_line_options@,
            driver_options: self.driver_options@,
            first_error: self.first_error,
        }
    }
}

impl ContextModel {
    pub open(crate) spec fn valid_type(self, t: Type) -> bool {
        t.id < self.types.len()
    }

    pub open(crate) spec fn valid_loc(self, l: Option<Location>) -> bool {
        l matches Some(x) ==> x.id < self.locations.len()
    }

    pub open(crate) spec fn valid_location(self, l: Location) -> bool {
        l.id < self.locations.len()
    }

    pub open(crate) spec fn valid_string(self, s: usize) -> bool {
        s < self.strings.len()
    }

    pub open(crate) spec fn valid_value(self, v: usize) -> bool {
        v < self.values.len()
    }

    pub open(crate) spec fn valid_field(self, f: Field) -> bool {
        f.id < self.fields.len()
    }

    pub open(crate) spec fn valid_struct(self, s: Struct) -> bool {
        s.id < self.structs.len() && self.structs[s.id as int].ty == s.ty
    }

    pub open(crate) spec fn valid_function(self, f: Function) -> bool {
        f.id < self.functions.len()
    }

    pub open(crate) spec fn valid_block(self, b: Block) -> bool {
        b.id < self.blocks.len()
    }

    pub open(crate) spec fn valid_case(self, c: Case) -> bool {
        c.id < self.cases.len()
    }

    /// The type that stands for a primitive kind: every context holds the
    /// primitive types first, in the engine's numbering.
    pub open(crate) spec fn primitive_type(self, k: PrimitiveKind) -> Type {
        Type { id: k.spec_index() as usize }
    }

    pub open(crate) spec fn type_kind_ok(self, k: TypeKind, i: int) -> bool {
        match k {
            TypeKind::Primitive(p) => p.spec_index() == i,
            TypeKind::Pointer(t) => t.id < i,
            TypeKind::Const(t) => t.id < i,
            TypeKind::Volatile(t) => t.id < i,
            TypeKind::Vector(t, _) => t.id < i,
            TypeKind::Array(t, _, l) => t.id < i && self.valid_loc(l),
            TypeKind::Compound(s) => s < self.structs.len() && self.structs[s as int].ty.id == i,
            TypeKind::FunctionPtr(r, l, _, loc) => r.id < i && l < self.type_lists.len()
                && self.valid_loc(loc),
        }
    }

    pub open(crate) spec fn types_ok(self) -> bool {
        &&& NUM_PRIMITIVES <= self.types.len()
        &&& forall|i: int| 0 <= i < NUM_PRIMITIVES ==> #[trigger] self.types[i] is Primitive
        &&& forall|i: int| 0 <= i < self.types.len() ==> self.type_kind_ok(#[trigger] self.types[i], i)
        &&& forall|i: int, j: int|
            0 <= i < self.types.len() && 0 <= j < self.types.len() && #[trigger] self.types[i]
                == #[trigger] self.types[j] && self.types[i].is_interned() ==> i == j
        &&& forall|l: int, k: int|
            0 <= l < self.type_lists.len() && 0 <= k < self.type_lists[l].len() ==> #[trigger] self.type_lists[l][k].id
                < self.types.len()
    }

    pub open(crate) spec fn structs_ok(self) -> bool {
        &&& forall|s: int|
            0 <= s < self.structs.len() ==> {
                let c = #[trigger] self.structs[s];
                &&& self.valid_string(c.name)
                &&& (c.fields matches Some(l) ==> l < self.field_lists.len())
                &&& self.valid_loc(c.loc)
                &&& c.ty.id < self.types.len()
                &&& self.types[c.ty.id as int] == TypeKind::Compound(s as usize)
            }
        &&& forall|f: int|
            0 <= f < self.fields.len() ==> {
                let x = #[trigger] self.fields[f];
                &&& self.valid_type(x.ty)
                &&& self.valid_string(x.name)
                &&& self.valid_loc(x.loc)
                &&& (x.container matches Some(c) ==> c < self.structs.len())
            }
        &&& forall|l: int, k: int|
            0 <= l < self.field_lists.len() && 0 <= k < self.field_lists[l].len() ==> #[trigger] self.field_lists[l][k].id
                < self.fields.len()
        &&& forall|l: int|
            0 <= l < self.locations.len() ==> self.valid_string(#[trigger] self.locations[l].file)
    }

    pub open(crate) spec fn value_kind_ok(self, k: ValueKind) -> bool {
        match k {
            ValueKind::Parameter(name) => self.valid_string(name),
            ValueKind::Local(f, name) => self.valid_function(f) && self.valid_string(name),
            ValueKind::StringLiteral(s) => self.valid_string(s),
            ValueKind::Vector(l) => l < self.value_lists.len(),
            ValueKind::Binary(_, a, b) => self.valid_value(a.id) && self.valid_value(b.id),
            ValueKind::Unary(_, a) => self.valid_value(a.id),
            ValueKind::Comparison(_, a, b) => self.valid_value(a.id) && self.valid_value(b.id),
            ValueKind::Call(f, l) => self.valid_function(f) && l < self.value_lists.len(),
            ValueKind::CallThroughPtr(p, l) => self.valid_value(p.id) && l < self.value_lists.len(),
            ValueKind::Cast(a) => self.valid_value(a.id),
            ValueKind::ArrayAccess(a, b) => self.valid_value(a.id) && self.valid_value(b.id),
            ValueKind::Dereference(a) => self.valid_value(a.id),
            ValueKind::DereferenceField(a, f) => self.valid_value(a.id) && self.valid_field(f),
            ValueKind::AccessField(a, f) => self.valid_value(a.id) && self.valid_field(f),
            ValueKind::LValueField(a, f) => self.valid_value(a.id) && self.valid_field(f),
            ValueKind::AddressOf(a) => self.valid_value(a.id),
            ValueKind::FunctionAddress(f) => self.valid_function(f),
            _ => true,
        }
    }

    pub open(crate) spec fn values_ok(self) -> bool {
        &&& forall|v: int|
            0 <= v < self.values.len() ==> {
                let x = #[trigger] self.values[v];
                &&& self.valid_type(x.ty)
                &&& self.valid_loc(x.loc)
                &&& self.value_kind_ok(x.kind)
            }
        &&& forall|l: int, k: int|
            0 <= l < self.value_lists.len() && 0 <= k < self.value_lists[l].len() ==> #[trigger] self.value_lists[l][k].id
                < self.values.len()
        &&& forall|f: int|
            0 <= f < self.functions.len() ==> {
                let x = #[trigger] self.functions[f];
                &&& self.valid_type(x.ret)
                &&& x.params < self.param_lists.len()
                &&& self.valid_string(x.name)
                &&& self.valid_loc(x.loc)
            }
        &&& forall|l: int, k: int|
            0 <= l < self.param_lists.len() && 0 <= k < self.param_lists[l].len() ==> #[trigger] self.param_lists[l][k].id
                < self.values.len()
    }

    pub open(crate) spec fn statement_ok(self, s: Statement) -> bool {
        match s {
            Statement::Eval(l, v) => self.valid_loc(l) && self.valid_value(v.id),
            Statement::Assignment(l, a, v) => self.valid_loc(l) && self.valid_value(a.id)
                && self.valid_value(v.id),
            Statement::AssignmentOp(l, a, _, v) => self.valid_loc(l) && self.valid_value(a.id)
                && self.valid_value(v.id),
            Statement::Comment(l, t) => self.valid_loc(l) && self.valid_string(t),
        }
    }

    pub open(crate) spec fn terminator_ok(self, t: Terminator) -> bool {
        match t {
            Terminator::Conditional(l, c, a, b) => self.valid_loc(l) && self.valid_value(c.id)
                && self.valid_block(a) && self.valid_block(b),
            Terminator::Jump(l, b) => self.valid_loc(l) && self.valid_block(b),
            Terminator::Switch(l, e, d, cs) => self.valid_loc(l) && self.valid_value(e.id)
                && self.valid_block(d) && cs < self.case_lists.len(),
            Terminator::Return(l, v) => self.valid_loc(l) && self.valid_value(v.id),
            Terminator::VoidReturn(l) => self.valid_loc(l),
        }
    }

    pub open(crate) spec fn blocks_ok(self) -> bool {
        &&& self.statements.len() == self.blocks.len()
        &&& forall|b: int|
            0 <= b < self.blocks.len() ==> {
                let x = #[trigger] self.blocks[b];
                &&& self.valid_function(x.func)
                &&& self.valid_string(x.name)
                &&& (x.terminator matches Some(t) ==> self.terminator_ok(t))
            }
        &&& forall|b: int, k: int|
            0 <= b < self.statements.len() && 0 <= k < self.statements[b].len() ==> self.statement_ok(
                #[trigger] self.statements[b][k],
            )
        &&& forall|c: int|
            0 <= c < self.cases.len() ==> {
                let x = #[trigger] self.cases[c];
                &&& self.valid_value(x.min.id)
                &&& self.valid_value(x.max.id)
                &&& self.valid_block(x.dest)
            }
        &&& forall|l: int, k: int|
            0 <= l < self.case_lists.len() && 0 <= k < self.case_lists[l].len() ==> #[trigger] self.case_lists[l][k].id
                < self.cases.len()
    }

    pub open(crate) spec fn settings_ok(self) -> bool {
        &&& (self.settings.program_name matches Some(s) ==> self.valid_string(s))
        &&& forall|k: int|
            0 <= k < self.command_line_options.len() ==> self.valid_string(
                #[trigger] self.command_line_options[k],
            )
        &&& forall|k: int|
            0 <= k < self.driver_options.len() ==> self.valid_string(#[trigger] self.driver_options[k])
    }

    /// Every handle that the context records refers to an object of the
    /// context; derived types refer to earlier types; the primitive types
    /// come first; interned types are held once.
    pub open(crate) spec fn wf(self) -> bool {
        &&& self.types_ok()
        &&& self.structs_ok()
        &&& self.values_ok()
        &&& self.blocks_ok()
        &&& self.settings_ok()
    }

    /// Every table of `prev` is still there, and may have grown.
    pub open(crate) spec fn extends(self, prev: ContextModel) -> bool {
        &&& prev.types.len() <= self.types.len()
        &&& forall|i: int| 0 <= i < prev.types.len() ==> #[trigger] self.types[i] == prev.types[i]
        &&& prev.type_lists.len() <= self.type_lists.len()
        &&& prev.structs.len() <= self.structs.len()
        &&& prev.fields.len() <= self.fields.len()
        &&& prev.field_lists.len() <= self.field_lists.len()
        &&& prev.locations.len() <= self.locations.len()
        &&& prev.functions.len() <= self.functions.len()
        &&& prev.param_lists.len() <= self.param_lists.len()
        &&& prev.values.len() <= self.values.len()
        &&& prev.value_lists.len() <= self.value_lists.len()
        &&& prev.blocks.len() <= self.blocks.len()
        &&& prev.cases.len() <= self.cases.len()
        &&& prev.case_lists.len() <= self.case_lists.len()
        &&& prev.strings.len() <= self.strings.len()
    }

    /// The model with `e` recorded, unless an earlier misuse was recorded.
    pub open(crate) spec fn with_error(self, e: ContextError) -> ContextModel {
        ContextModel {
            first_error: if self.first_error is None {
                Some(e)
            } else {
                self.first_error
            },
            ..self
        }
    }

    pub open(crate) spec fn valid_rvalue(self, r: RValue) -> bool {
        r.id < self.values.len()
    }

    pub open(crate) spec fn valid_rvalues(self, rs: Seq<RValue>) -> bool {
        forall|i: int| 0 <= i < rs.len() ==> self.valid_rvalue(#[trigger] rs[i])
    }

    /// The model with one more string.
    pub open(crate) spec fn string_added(self, s: Seq<char>) -> ContextModel {
        ContextModel { strings: self.strings.push(s), ..self }
    }

    /// The model with one more value.
    pub open(crate) spec fn value_added(self, v: ValueInfo) -> ContextModel {
        ContextModel { values: self.values.push(v), ..self }
    }

    /// The model with one more list of values.
    pub open(crate) spec fn value_list_added(self, l: Seq<RValue>) -> ContextModel {
        ContextModel { value_lists: self.value_lists.push(l), ..self }
    }

    /// The type of the values that a value of type `t` points to, seen
    /// through const and volatile: the element type of a pointer or an
    /// array.
    pub open(crate) spec fn pointee(self, t: Type) -> Option<Type>
        decreases t.index(),
    {
        match self.types[t.id as int] {
            TypeKind::Pointer(x) => Some(x),
            TypeKind::Array(x, _, _) => Some(x),
            TypeKind::Const(x) => if x.id < t.id {
                self.pointee(x)
            } else {
                None
            },
            TypeKind::Volatile(x) => if x.id < t.id {
                self.pointee(x)
            } else {
                None
            },
            _ => None,
        }
    }

    /// A context as created: the primitive types and nothing else, with no
    /// optimization, no dumps, no options and no misuse recorded.
    pub open(crate) spec fn is_fresh(self) -> bool {
        &&& self.types.len() == NUM_PRIMITIVES
        &&& self.type_lists.len() == 0
        &&& self.structs.len() == 0
        &&& self.fields.len() == 0
        &&& self.field_lists.len() == 0
        &&& self.locations.len() == 0
        &&& self.functions.len() == 0
        &&& self.param_lists.len() == 0
        &&& self.values.len() == 0
        &&& self.value_lists.len() == 0
        &&& self.blocks.len() == 0
        &&& self.statements.len() == 0
        &&& self.cases.len() == 0
        &&& self.case_lists.len() == 0
        &&& self.strings.len() == 0
        &&& self.settings == Settings {
            opt_level: OptimizationLevel::NoOptimization,
            dump_initial_gimple: false,
            dump_generated_code: false,
            program_name: None,
        }
        &&& self.command_line_options.len() == 0
        &&& self.driver_options.len() == 0
        &&& self.first_error is None
    }

    /// The first block, from position `i` on, that has no terminator.
    pub open(crate) spec fn first_open_block(self, i: int) -> Option<Block>
        decreases self.blocks.len() - i,
    {
        if i < 0 || i >= self.blocks.len() {
            None
        } else if self.blocks[i].terminator is None {
            Some(Block { id: i as usize })
        } else {
            self.first_open_block(i + 1)
        }
    }

    /// Why the context cannot be compiled, if it cannot: the first misuse it
    /// recorded, else the first block without a terminator.
    pub open(crate) spec fn compile_failure(self) -> Option<CompileError> {
        match self.first_error {
            Some(e) => Some(CompileError::Recorded(e)),
            None => match self.first_open_block(0) {
                Some(b) => Some(CompileError::UnterminatedBlock(b)),
                None => None,
            },
        }
    }

    /// The type of the given shape if the context holds one, else the model
    /// with that shape added, and its handle.
    pub open(crate) spec fn interned(self, k: TypeKind) -> (ContextModel, Type) {
        if exists|i: int| 0 <= i < self.types.len() && self.types[i] == k {
            (self, Type { id: (choose|i: int| 0 <= i < self.types.len() && self.types[i] == k) as usize })
        } else {
            (ContextModel { types: self.types.push(k), ..self }, Type { id: self.types.len() as usize })
        }
    }
}

/// A copy of a list of lists of handles.
fn copy_lists<T: Copy>(v: &Vec<Vec<T>>) -> (r: Vec<Vec<T>>)
    ensures
        r@.map_values(|l: Vec<T>| l@) == v@.map_values(|l: Vec<T>| l@),
{
    let mut r: Vec<Vec<T>> = Vec::new();
    let mut i: usize = 0;
    while i < v.len()
        invariant
            i <= v@.len(),
            r@.len() == i,
            forall|k: int| 0 <= k < i ==> #[trigger] r@[k]@ == v@[k]@,
        decreases v@.len() - i,
    {
        let inner = crate::structs::copy_slice(v[i].as_slice());
        r.push(inner);
        i = i + 1;
    }
    assert(r@.map_values(|l: Vec<T>| l@) =~= v@.map_values(|l: Vec<T>| l@));
    r
}

/// A copy of a list of strings.
fn copy_strings(v: &Vec<String>) -> (r: Vec<String>)
    ensures
        r@.map_values(|s: String| s@) == v@.map_values(|s: String| s@),
{
    let mut r: Vec<String> = Vec::new();
    let mut i: usize = 0;
    while i < v.len()
        invariant
            i <= v@.len(),
            r@.len() == i,
            forall|k: int| 0 <= k < i ==> #[trigger] r@[k]@ == v@[k]@,
        decreases v@.len() - i,
    {
        r.push(v[i].clone());
        i = i + 1;
    }
    assert(r@.map_values(|s: String| s@) =~= v@.map_values(|s: String| s@));
    r
}

/// If a block from position `i` on is open, `first_open_block(i)` finds an
/// open one.
proof fn lemma_first_open_block(m: ContextModel, i: int, b: int)
    requires
        0 <= i <= b < m.blocks.len(),
        m.blocks[b].terminator is None,
    ensures
        m.first_open_block(i) is Some,
    decreases b - i,
{
    if m.blocks[i].terminator is Some {
        lemma_first_open_block(m, i + 1, b);
    }
}

/// A context with a block that was never terminated does not compile.
pub proof fn lemma_unterminated_block_fails_compile(m: ContextModel, b: Block)
    requires
        m.wf(),
        m.valid_block(b),
        !m.is_terminated(b),
    ensures
        m.compile_failure() is Some,
{
    lemma_first_open_block(m, 0, b.id as int);
}

/// Interning a type keeps the context well formed and gives a type of the
/// requested shape.
pub(crate) proof fn lemma_interned(m: ContextModel, k: TypeKind)
    requires
        m.wf(),
        m.types.len() <= usize::MAX,
        k.is_interned(),
        m.type_kind_ok(k, m.types.len() as int),
    ensures
        m.interned(k).0.wf(),
        m.interned(k).0.valid_type(m.interned(k).1),
        m.interned(k).0.types[m.interned(k).1.id as int] == k,
        m.interned(k).0.types.len() >= m.types.len(),
        m.types.len() < m.interned(k).0.types.len() ==> m.interned(k).1.id == m.types.len(),
        m.interned(k).0 == m || m.interned(k).0 == (ContextModel {
            types: m.types.push(k),
            ..m
        }),
{
    if exists|i: int| 0 <= i < m.types.len() && m.types[i] == k {
    } else {
        let m2 = m.interned(k).0;
        assert forall|i: int| 0 <= i < m2.types.len() implies m2.type_kind_ok(
            #[trigger] m2.types[i],
            i,
        ) by {
            if i < m.types.len() {
                assert(m.type_kind_ok(m.types[i], i));
            }
        }
        assert forall|i: int, j: int|
            0 <= i < m2.types.len() && 0 <= j < m2.types.len() && #[trigger] m2.types[i]
                == #[trigger] m2.types[j] && m2.types[i].is_interned() implies i == j by {
            if i < m.types.len() && j == m.types.len() {
                assert(m.types[i] == k);
            }
            if j < m.types.len() && i == m.types.len() {
                assert(m.types[j] == k);
            }
        }
    }
}

impl<'a> Context<'a> {
    /// The context is well formed (see `ContextModel::wf`).
    pub open(crate) spec fn wf(&self) -> bool {
        self@.wf()
    }

    /// A new, empty context: it holds the primitive types and nothing else,
    /// with no optimization and no dumps.
    pub fn new() -> (c: Context<'static>)
        ensures
            c.wf(),
            c@.is_fresh(),
    {
        let mut types: Vec<TypeKind> = Vec::new();
        let mut i: usize = 0;
        while i < NUM_PRIMITIVES
            invariant
                i <= NUM_PRIMITIVES,
                types@.len() == i,
                forall|j: int|
                    0 <= j < i ==> (#[trigger] types@[j] matches TypeKind::Primitive(k)
                        && k.spec_index() == j),
            decreases NUM_PRIMITIVES - i,
        {
            match PrimitiveKind::from_index(i as u32) {
                Some(k) => {
                    types.push(TypeKind::Primitive(k));
                },
                None => {},
            }
            i = i + 1;
        }
        let c = Context {
            marker: std::marker::PhantomData,
            types,
            type_lists: Vec::new(),
            structs: Vec::new(),
            fields: Vec::new(),
            field_lists: Vec::new(),
            locations: Vec::new(),
            functions: Vec::new(),
            param_lists: Vec::new(),
            values: Vec::new(),
            value_lists: Vec::new(),
            blocks: Vec::new(),
            statements: Vec::new(),
            cases: Vec::new(),
            case_lists: Vec::new(),
            strings: Vec::new(),
            settings: Settings {
                opt_level: OptimizationLevel::NoOptimization,
                dump_initial_gimple: false,
                dump_generated_code: false,
                program_name: None,
            },
            command_line_options: Vec::new(),
            driver_options: Vec::new(),
            first_error: None,
        };
        assert forall|i: int, j: int|
            0 <= i < c@.types.len() && 0 <= j < c@.types.len() && #[trigger] c@.types[i]
                == #[trigger] c@.types[j] && c@.types[i].is_interned() implies i == j by {
            assert(c@.types[i] is Primitive);
        }
        c
    }

    /// The primitive type of the given kind.
    pub fn get_type(&self, kind: PrimitiveKind) -> (t: Type)
        requires
            self.wf(),
        ensures
            t == self@.primitive_type(kind),
            self@.valid_type(t),
            self@.types[t.index() as int] == TypeKind::Primitive(kind),
    {
        let i = kind.index();
        proof {
            assert(self@.type_kind_ok(self@.types[i as int], i as int));
            assert(self@.types[i as int] is Primitive);
            let p = self@.types[i as int]->Primitive_0;
            assert(p.spec_index() == kind.spec_index());
        }
        Type { id: i }
    }

    /// The type that the host type `T` maps to.
    pub fn new_type<T: Typeable>(&mut self) -> (t: Type)
        requires
            old(self).wf(),
        ensures
            final(self).wf(),
            final(self)@.valid_type(t),
            final(self)@.extends(old(self)@),
            T::primitive_kind() matches Some(k) ==> t == final(self)@.primitive_type(k)
                && final(self)@ == old(self)@,
    {
        T::get_type(self)
    }

    /// Checks the context before it is handed to the engine: the first
    /// misuse it recorded, else the first block without a terminator, is an
    /// error.
    pub fn validate(&self) -> (r: Result<(), CompileError>)
        requires
            self.wf(),
        ensures
            r matches Err(e) ==> self@.compile_failure() == Some(e),
            r is Ok <==> self@.compile_failure() is None,
    {
        if let Some(e) = self.first_error {
            return Err(CompileError::Recorded(e));
        }
        let n = self.blocks.len();
        let mut i: usize = 0;
        while i < n
            invariant
                n == self@.blocks.len(),
                i <= n,
                self@.first_open_block(0) == self@.first_open_block(i as int),
                self.first_error is None,
            decreases n - i,
        {
            if self.blocks[i].terminator.is_none() {
                return Err(CompileError::UnterminatedBlock(Block { id: i }));
            }
            i = i + 1;
        }
        Ok(())
    }

    /// Appends an option to the command line of the compiler that the
    /// engine runs.
    pub fn add_command_line_option(&mut self, name: &str)
        requires
            old(self).wf(),
        ensures
            final(self).wf(),
            final(self)@ == (ContextModel {
                command_line_options: old(self)@.command_line_options.push(
                    old(self)@.strings.len() as usize,
                ),
                ..old(self)@.string_added(name@)
            }),
    {
        let s = self.add_string(name);
        self.command_line_options.push(s);
    }

    /// Appends an option to the command line of the driver that links the
    /// generated code.
    pub fn add_driver_option(&mut self, name: &str)
        requires
            old(self).wf(),
        ensures
            final(self).wf(),
            final(self)@ == (ContextModel {
                driver_options: old(self)@.driver_options.push(old(self)@.strings.len() as usize),
                ..old(self)@.string_added(name@)
            }),
    {
        let s = self.add_string(name);
        self.driver_options.push(s);
    }

    /// Sets the program name that the engine reports.
    pub fn set_name(&mut self, name: &str)
        requires
            old(self).wf(),
        ensures
            final(self).wf(),
            final(self)@ == (ContextModel {
                settings: Settings {
                    program_name: Some(old(self)@.strings.len() as usize),
                    ..old(self)@.settings
                },
                ..old(self)@.string_added(name@)
            }),
    {
        let s = self.add_string(name);
        self.settings = Settings { program_name: Some(s), ..self.settings };
    }

    /// Sets the optimization level.
    pub fn set_opt_level(&mut self, opt: OptimizationLevel)
        requires
            old(self).wf(),
        ensures
            final(self).wf(),
            final(self)@ == (ContextModel {
                settings: Settings { opt_level: opt, ..old(self)@.settings },
                ..old(self)@
            }),
    {
        self.settings = Settings { opt_level: opt, ..self.settings };
    }

    /// Whether the engine dumps its initial intermediate form when it
    /// compiles.
    pub fn set_dump_gimple(&mut self, value: bool)
        requires
            old(self).wf(),
        ensures
            final(self).wf(),
            final(self)@ == (ContextModel {
                settings: Settings { dump_initial_gimple: value, ..old(self)@.settings },
                ..old(self)@
            }),
    {
        self.settings = Settings { dump_initial_gimple: value, ..self.settings };
    }

    /// Whether the engine dumps the code it generates.
    pub fn set_dump_code(&mut self, value: bool)
        requires
            old(self).wf(),
        ensures
            final(self).wf(),
            final(self)@ == (ContextModel {
                settings: Settings { dump_generated_code: value, ..old(self)@.settings },
                ..old(self)@
            }),
    {
        self.settings = Settings { dump_generated_code: value, ..self.settings };
    }

    /// A child context: it starts with every object of this context, so
    /// that what it builds may refer to them, and it cannot outlive this
    /// context, which it borrows.
    pub fn new_child_context<'b>(&'b self) -> (c: Context<'b>)
        requires
            self.wf(),
        ensures
            c.wf(),
            c@ == self@,
    {
        let c = Context {
            marker: std::marker::PhantomData,
            types: self.types.clone(),
            type_lists: copy_lists(&self.type_lists),
            structs: self.structs.clone(),
            fields: self.fields.clone(),
            field_lists: copy_lists(&self.field_lists),
            locations: self.locations.clone(),
            functions: self.functions.clone(),
            param_lists: copy_lists(&self.param_lists),
            values: self.values.clone(),
            value_lists: copy_lists(&self.value_lists),
            blocks: self.blocks.clone(),
            statements: copy_lists(&self.statements),
            cases: self.cases.clone(),
            case_lists: copy_lists(&self.case_lists),
            strings: copy_strings(&self.strings),
            settings: self.settings,
            command_line_options: self.command_line_options.clone(),
            driver_options: self.driver_options.clone(),
            first_error: self.first_error,
        };
        assert(c@ =~= self@);
        c
    }

    /// The number of types.
    pub fn num_types(&self) -> (r: usize)
        ensures
            r == self@.types.len(),
    {
        self.types.len()
    }

    /// The number of structs and unions.
    pub fn num_structs(&self) -> (r: usize)
        ensures
            r == self@.structs.len(),
    {
        self.structs.len()
    }

    /// The number of fields.
    pub fn num_fields(&self) -> (r: usize)
        ensures
            r == self@.fields.len(),
    {
        self.fields.len()
    }

    /// The number of locations.
    pub fn num_locations(&self) -> (r: usize)
        ensures
            r == self@.locations.len(),
    {
        self.locations.len()
    }

    /// The number of functions.
    pub fn num_functions(&self) -> (r: usize)
        ensures
            r == self@.functions.len(),
    {
        self.functions.len()
    }

    /// The number of values (rvalues, lvalues and parameters).
    pub fn num_values(&self) -> (r: usize)
        ensures
            r == self@.values.len(),
    {
        self.values.len()
    }

    /// The number of blocks.
    pub fn num_blocks(&self) -> (r: usize)
        ensures
            r == self@.blocks.len(),
    {
        self.blocks.len()
    }

    /// The number of switch cases.
    pub fn num_cases(&self) -> (r: usize)
        ensures
            r == self@.cases.len(),
    {
        self.cases.len()
    }

    /// The shape of the type at position `i`.
    pub fn type_kind(&self, i: usize) -> (r: TypeKind)
        requires
            i < self@.types.len(),
        ensures
            r == self@.types[i as int],
    {
        self.types[i]
    }

    /// The struct or union at position `i`.
    pub fn struct_info(&self, i: usize) -> (r: CompoundInfo)
        requires
            i < self@.structs.len(),
        ensures
            r == self@.structs[i as int],
    {
        self.structs[i]
    }

    /// The field at position `i`.
    pub fn field_info(&self, i: usize) -> (r: FieldInfo)
        requires
            i < self@.fields.len(),
        ensures
            r == self@.fields[i as int],
    {
        self.fields[i]
    }

    /// The location at position `i`.
    pub fn location_info(&self, i: usize) -> (r: LocationInfo)
        requires
            i < self@.locations.len(),
        ensures
            r == self@.locations[i as int],
    {
        self.locations[i]
    }

    /// The function at position `i`.
    pub fn function_info(&self, i: usize) -> (r: FunctionInfo)
        requires
            i < self@.functions.len(),
        ensures
            r == self@.functions[i as int],
    {
        self.functions[i]
    }

    /// The value at position `i`.
    pub fn value_info(&self, i: usize) -> (r: ValueInfo)
        requires
            i < self@.values.len(),
        ensures
            r == self@.values[i as int],
    {
        self.values[i]
    }

    /// The block at position `i`.
    pub fn block_info(&self, i: usize) -> (r: BlockInfo)
        requires
            i < self@.blocks.len(),
        ensures
            r == self@.blocks[i as int],
    {
        self.blocks[i]
    }

    /// The switch case at position `i`.
    pub fn case_info(&self, i: usize) -> (r: CaseInfo)
        requires
            i < self@.cases.len(),
        ensures
            r == self@.cases[i as int],
    {
        self.cases[i]
    }

    /// The list of types at position `l` (parameter types of a function pointer type).
    pub fn type_list(&self, l: usize) -> (r: &[Type])
        requires
            l < self@.type_lists.len(),
        ensures
            r@ == self@.type_lists[l as int],
    {
        self.type_lists[l].as_slice()
    }

    /// The list of fields at position `l`.
    pub fn field_list(&self, l: usize) -> (r: &[Field])
        requires
            l < self@.field_lists.len(),
        ensures
            r@ == self@.field_lists[l as int],
    {
        self.field_lists[l].as_slice()
    }

    /// The list of parameters at position `l`.
    pub fn param_list(&self, l: usize) -> (r: &[Parameter])
        requires
            l < self@.param_lists.len(),
        ensures
            r@ == self@.param_lists[l as int],
    {
        self.param_lists[l].as_slice()
    }

    /// The list of values at position `l` (call arguments, vector elements).
    pub fn value_list(&self, l: usize) -> (r: &[RValue])
        requires
            l < self@.value_lists.len(),
        ensures
            r@ == self@.value_lists[l as int],
    {
        self.value_lists[l].as_slice()
    }

    /// The list of switch cases at position `l`.
    pub fn case_list(&self, l: usize) -> (r: &[Case])
        requires
            l < self@.case_lists.len(),
        ensures
            r@ == self@.case_lists[l as int],
    {
        self.case_lists[l].as_slice()
    }

    /// The statements of the block at position `b`, in order.
    pub fn statements_of(&self, l: usize) -> (r: &[Statement])
        requires
            l < self@.statements.len(),
        ensures
            r@ == self@.statements[l as int],
    {
        self.statements[l].as_slice()
    }

    /// The string at position `i`.
    pub fn string(&self, i: usize) -> (r: &str)
        requires
            i < self@.strings.len(),
        ensures
            r@ == self@.strings[i as int],
    {
        self.strings[i].as_str()
    }

    /// The compiler configuration.
    pub fn settings(&self) -> (r: Settings)
        ensures
            r == self@.settings,
    {
        self.settings
    }

    /// The options for the compiler's command line, as indices of strings.
    pub fn command_line_options(&self) -> (r: &[usize])
        ensures
            r@ == self@.command_line_options,
    {
        self.command_line_options.as_slice()
    }

    /// The options for the driver's command line, as indices of strings.
    pub fn driver_options(&self) -> (r: &[usize])
        ensures
            r@ == self@.driver_options,
    {
        self.driver_options.as_slice()
    }

    /// The first misuse that the context recorded, if any.
    pub fn first_error(&self) -> (r: Option<ContextError>)
        ensures
            r == self@.first_error,
    {
        self.first_error
    }

    /// Records a string and returns its index.
    pub(crate) fn add_string(&mut self, s: &str) -> (r: usize)
        requires
            old(self).wf(),
        ensures
            final(self).wf(),
            r == old(self)@.strings.len(),
            final(self)@ == (ContextModel { strings: old(self)@.strings.push(s@), ..old(self)@ }),
    {
        let r = self.strings.len();
        self.strings.push(s.to_owned());
        assert(self@.strings =~= old(self)@.strings.push(s@));
        assert(self@ =~= (ContextModel { strings: old(self)@.strings.push(s@), ..old(self)@ }));
        r
    }

    /// Records a value and returns its index.
    pub(crate) fn push_value(&mut self, v: ValueInfo) -> (r: usize)
        requires
            old(self).wf(),
            old(self)@.valid_type(v.ty),
            old(self)@.valid_loc(v.loc),
            old(self)@.value_kind_ok(v.kind),
        ensures
            final(self).wf(),
            r == old(self)@.values.len(),
            final(self)@ == old(self)@.value_added(v),
    {
        let ghost m = self@;
        let r = self.values.len();
        self.values.push(v);
        assert(self@ =~= m.value_added(v));
        proof {
            let n = self@;
            assert forall|i: int| 0 <= i < n.values.len() implies {
                let x = #[trigger] n.values[i];
                &&& n.valid_type(x.ty)
                &&& n.valid_loc(x.loc)
                &&& n.value_kind_ok(x.kind)
            } by {
                if i < m.values.len() {
                    let x = m.values[i];
                    assert(m.value_kind_ok(x.kind));
                }
            }
            assert forall|b: int, k: int|
                0 <= b < n.statements.len() && 0 <= k < n.statements[b].len() implies n.statement_ok(
                #[trigger] n.statements[b][k],
            ) by {
                assert(m.statement_ok(m.statements[b][k]));
            }
            assert forall|b: int| 0 <= b < n.blocks.len() implies {
                let x = #[trigger] n.blocks[b];
                &&& n.valid_function(x.func)
                &&& n.valid_string(x.name)
                &&& (x.terminator matches Some(t) ==> n.terminator_ok(t))
            } by {
                let x = m.blocks[b];
                if x.terminator is Some {
                    assert(m.terminator_ok(x.terminator->0));
                }
            }
        }
        r
    }

    /// Records a list of values and returns its index.
    pub(crate) fn push_value_list(&mut self, vs: &[RValue]) -> (r: usize)
        requires
            old(self).wf(),
            old(self)@.valid_rvalues(vs@),
        ensures
            final(self).wf(),
            r == old(self)@.value_lists.len(),
            final(self)@ == old(self)@.value_list_added(vs@),
    {
        let ghost m = self@;
        let r = self.value_lists.len();
        let list = crate::structs::copy_slice(vs);
        self.value_lists.push(list);
        assert(self@.value_lists =~= m.value_lists.push(vs@));
        assert(self@ =~= m.value_list_added(vs@));
        proof {
            let n = self@;
            assert forall|l: int, k: int|
                0 <= l < n.value_lists.len() && 0 <= k < n.value_lists[l].len() implies #[trigger] n.value_lists[l][k].id
                < n.values.len() by {
                if l < m.value_lists.len() {
                    assert(m.value_lists[l][k].id < m.values.len());
                } else {
                    assert(m.valid_rvalue(vs@[k]));
                }
            }
            assert forall|i: int| 0 <= i < n.values.len() implies {
                let x = #[trigger] n.values[i];
                &&& n.valid_type(x.ty)
                &&& n.valid_loc(x.loc)
                &&& n.value_kind_ok(x.kind)
            } by {
                let x = m.values[i];
                assert(m.value_kind_ok(x.kind));
            }
        }
        r
    }

    /// The element type behind a pointer or an array type, if `t` is one.
    pub(crate) fn pointee_of(&self, t: Type) -> (r: Option<Type>)
        requires
            self.wf(),
            self@.valid_type(t),
        ensures
            r == self@.pointee(t),
            r matches Some(x) ==> self@.valid_type(x),
        decreases t.id,
    {
        proof {
            assert(self@.type_kind_ok(self@.types[t.id as int], t.id as int));
        }
        match self.types[t.id] {
            TypeKind::Pointer(x) => Some(x),
            TypeKind::Array(x, _, _) => Some(x),
            TypeKind::Const(x) => self.pointee_of(x),
            TypeKind::Volatile(x) => self.pointee_of(x),
            _ => None,
        }
    }

    /// Records the first misuse; later ones leave the record as it is.
    pub(crate) fn record_error(&mut self, e: ContextError)
        requires
            old(self).wf(),
        ensures
            final(self).wf(),
            final(self)@ == old(self)@.with_error(e),
    {
        if self.first_error.is_none() {
            self.first_error = Some(e);
        }
    }

    /// The type of the given shape, created if the context holds none yet.
    pub(crate) fn intern_type(&mut self, k: TypeKind) -> (t: Type)
        requires
            old(self).wf(),
            k.is_interned(),
            old(self)@.type_kind_ok(k, old(self)@.types.len() as int),
        ensures
            final(self).wf(),
            (final(self)@, t) == old(self)@.interned(k),
            final(self)@.types[t.id as int] == k,
    {
        let n = self.types.len();
        proof {
            lemma_interned(self@, k);
        }
        let mut i: usize = 0;
        while i < n
            invariant
                n == self.types@.len(),
                i <= n,
                self.wf(),
                self@ == old(self)@,
                k.is_interned(),
                forall|j: int| 0 <= j < i ==> self.types@[j] != k,
            decreases n - i,
        {
            if self.types[i] == k {
                proof {
                    let c = choose|j: int| 0 <= j < self@.types.len() && self@.types[j] == k;
                    assert(self@.types[c] == self@.types[i as int]);
                }
                return Type { id: i };
            }
            i = i + 1;
        }
        self.types.push(k);
        assert(self@ =~= (ContextModel { types: old(self)@.types.push(k), ..old(self)@ }));
        Type { id: n }
    }
}

impl Default for Context<'static> {
    /// The same as `Context::new`.
    fn default() -> (c: Context<'static>)
        ensures
            c.wf(),
            c@.is_fresh(),
    {
        Context::new()
    }
}

} // verus!
