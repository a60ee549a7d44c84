use vstd::prelude::*;

use crate::function::{Function, HandleError};
use crate::types::{is_first_class, Constant, FunctionType, FunctionTypeView, IrType};

verus! {

/// A function table entry: its name, its signature and the labels of its blocks in order.
pub struct FunctionView {
    pub name: Seq<char>,
    pub ty: FunctionTypeView,
    pub blocks: Seq<Seq<char>>,
}

/// A module-level variable: its name, its type and its initial value, once set.
pub struct GlobalView {
    pub name: Seq<char>,
    pub ty: IrType,
    pub init: Option<Constant>,
}

/// What a module holds, in insertion order.
pub struct ModuleView {
    pub name: Seq<char>,
    pub context: Option<u64>,
    pub functions: Seq<FunctionView>,
    pub globals: Seq<GlobalView>,
}

/// Position of a global in its module.
#[derive(Clone, Copy, PartialEq, Eq, Structural, Debug)]
pub struct GlobalRef {
    pub index: usize,
}

struct FunctionEntry {
    name: String,
    ty: FunctionType,
    blocks: Vec<String>,
}

impl FunctionEntry {
    closed spec fn view(&self) -> FunctionView {
        FunctionView {
            name: self.name@,
            ty: self.ty@,
            blocks: self.blocks@.map_values(|s: String| s@),
        }
    }
}

struct Global {
    name: String,
    ty: IrType,
    init: Option<Constant>,
}

impl Global {
    closed spec fn view(&self) -> GlobalView {
        GlobalView { name: self.name@, ty: self.ty, init: self.init }
    }
}

/// An IR module: a named container of functions and globals, owned exclusively.
pub struct Module {
    name: String,
    context: Option<u64>,
    functions: Vec<FunctionEntry>,
    globals: Vec<Global>,
}

impl View for Module {
    type V = ModuleView;

    closed spec fn view(&self) -> ModuleView {
        ModuleView {
            name: self.name@,
            context: self.context,
            functions: self.functions@.map_values(|e: FunctionEntry| e.view()),
            globals: self.globals@.map_values(|g: Global| g.view()),
        }
    }
}

/// No two functions of the table share a name.
pub open spec fn names_unique(fs: Seq<FunctionView>) -> bool {
    forall|i: int, j: int|
        0 <= i < fs.len() && 0 <= j < fs.len() && i != j ==> #[trigger] fs[i].name != #[trigger] fs[j].name
}

/// A function may return void or any first-class type.
pub open spec fn valid_return(t: IrType) -> bool {
    t is Void || is_first_class(t)
}

/// The diagnostics that verification reports, one per rule.
pub open spec fn return_message() -> Seq<char> {
    "Function return type must be void or first-class"@
}

pub open spec fn param_message() -> Seq<char> {
    "Function arguments must have first-class types"@
}

pub open spec fn global_type_message() -> Seq<char> {
    "Global variables must have a first-class type"@
}

pub open spec fn initializer_message() -> Seq<char> {
    "Global variable initializer type does not match global variable type"@
}

/// What is wrong with a function, if anything.
pub open spec fn function_diag(f: FunctionView) -> Option<Seq<char>> {
    if !valid_return(f.ty.ret) {
        Some(return_message())
    } else if exists|k: int| 0 <= k < f.ty.params.len() && !is_first_class(#[trigger] f.ty.params[k]) {
        Some(param_message())
    } else {
        None
    }
}

/// What is wrong with a global, if anything.
pub open spec fn global_diag(g: GlobalView) -> Option<Seq<char>> {
    if !is_first_class(g.ty) {
        Some(global_type_message())
    } else if g.init is Some && g.init->Some_0.ty != g.ty {
        Some(initializer_message())
    } else {
        None
    }
}

/// The first function, in table order, that is wrong.
pub open spec fn functions_diag(fs: Seq<FunctionView>) -> Option<Seq<char>>
    decreases fs.len(),
{
    if fs.len() == 0 {
        None
    } else {
        match functions_diag(fs.drop_last()) {
            Some(d) => Some(d),
            None => function_diag(fs.last()),
        }
    }
}

/// The first global, in insertion order, that is wrong.
pub open spec fn globals_diag(gs: Seq<GlobalView>) -> Option<Seq<char>>
    decreases gs.len(),
{
    if gs.len() == 0 {
        None
    } else {
        match globals_diag(gs.drop_last()) {
            Some(d) => Some(d),
            None => global_diag(gs.last()),
        }
    }
}

/// The outcome of verification: the first violation found, functions before globals.
pub open spec fn module_diag(m: ModuleView) -> Option<Seq<char>> {
    match functions_diag(m.functions) {
        Some(d) => Some(d),
        None => globals_diag(m.globals),
    }
}

/// What a verification of `m` returns.
pub open spec fn verify_result(m: ModuleView, r: Result<(), String>) -> bool {
    match module_diag(m) {
        None => r is Ok,
        Some(d) => r is Err && r->Err_0@ == d,
    }
}

impl Module {
    /// Function names are unique within the module.
    pub closed spec fn wf(&self) -> bool {
        names_unique(self@.functions)
    }

    /// Whether a function named `name` is in the table.
    pub open spec fn declared(m: ModuleView, name: Seq<char>) -> bool {
        exists|i: int| 0 <= i < m.functions.len() && #[trigger] m.functions[i].name == name
    }

    /// `m` with a new, empty function appended.
    pub open spec fn with_function(m: ModuleView, name: Seq<char>, ty: FunctionTypeView) -> ModuleView {
        ModuleView {
            functions: m.functions.push(FunctionView { name, ty, blocks: Seq::empty() }),
            ..m
        }
    }

    /// `m` with a block labelled `label` appended to function `i`.
    pub open spec fn with_block(m: ModuleView, i: int, label: Seq<char>) -> ModuleView {
        ModuleView {
            functions: m.functions.update(
                i,
                FunctionView { blocks: m.functions[i].blocks.push(label), ..m.functions[i] },
            ),
            ..m
        }
    }

    /// `m` with a global appended.
    pub open spec fn with_global(m: ModuleView, name: Seq<char>, ty: IrType) -> ModuleView {
        ModuleView { globals: m.globals.push(GlobalView { name, ty, init: None }), ..m }
    }

    /// `m` with the initial value of global `i` set to `val`.
    pub open spec fn with_initializer(m: ModuleView, i: int, val: Constant) -> ModuleView {
        ModuleView {
            globals: m.globals.update(i, GlobalView { init: Some(val), ..m.globals[i] }),
            ..m
        }
    }

    /// A new, empty module in the global context.
    pub fn new(name: &str) -> (r: Module)
        ensures
            r.wf(),
            r@ == (ModuleView { name: name@, context: None, functions: Seq::empty(), globals: Seq::empty() }),
    {
        let r = Module { name: name.to_owned(), context: None, functions: Vec::new(), globals: Vec::new() };
        assert(r@.functions =~= Seq::empty());
        assert(r@.globals =~= Seq::empty());
        r
    }

    /// A new, empty module that refers to, and does not own, `context`.
    pub fn new_in_context(name: &str, context: u64) -> (r: Module)
        ensures
            r.wf(),
            r@ == (ModuleView {
                name: name@,
                context: Some(context),
                functions: Seq::empty(),
                globals: Seq::empty(),
            }),
    {
        let r = Module {
            name: name.to_owned(),
            context: Some(context),
            functions: Vec::new(),
            globals: Vec::new(),
        };
        assert(r@.functions =~= Seq::empty());
        assert(r@.globals =~= Seq::empty());
        r
    }

    /// The module's name.
    pub fn as_ref(&self) -> (r: &str)
        ensures
            r@ == self@.name,
    {
        self.name.as_str()
    }

    /// The context the module was created in; `None` for the global one.
    pub fn context(&self) -> (r: Option<u64>)
        ensures
            r == self@.context,
    {
        self.context
    }

    /// The number of functions declared.
    pub fn function_count(&self) -> (r: usize)
        ensures
            r == self@.functions.len(),
    {
        self.functions.len()
    }

    /// The number of globals declared.
    pub fn global_count(&self) -> (r: usize)
        ensures
            r == self@.globals.len(),
    {
        self.globals.len()
    }

    /// The position of the function named `name`, if there is one.
    pub(crate) fn find(&self, name: &str) -> (r: Option<usize>)
        requires
            self.wf(),
        ensures
            r is None <==> !Self::declared(self@, name@),
            r is Some ==> r->Some_0 < self@.functions.len() && self@.functions[r->Some_0 as int].name
                == name@,
    {
        let target = name.to_owned();
        let mut i: usize = 0;
        while i < self.functions.len()
            invariant
                i <= self.functions@.len(),
                target@ == name@,
                forall|k: int| 0 <= k < i ==> #[trigger] self@.functions[k].name != name@,
            decreases self.functions@.len() - i,
        {
            assert(self@.functions[i as int] == self.functions@[i as int].view());
            if self.functions[i].name.eq(&target) {
                assert(self@.functions[i as int].name == name@);
                return Some(i);
            }
            i = i + 1;
        }
        None
    }

    /// A copy of the signature of function `index`.
    pub(crate) fn signature_at(&self, index: usize) -> (r: FunctionType)
        requires
            index < self@.functions.len(),
        ensures
            r@ == self@.functions[index as int].ty,
    {
        self.functions[index].ty.duplicate()
    }

    /// Appends a function that is not yet declared.
    pub(crate) fn push_function(&mut self, name: &str, ty: FunctionType) -> (r: usize)
        requires
            old(self).wf(),
            !Self::declared(old(self)@, name@),
        ensures
            final(self).wf(),
            final(self)@ == Self::with_function(old(self)@, name@, ty@),
            r == old(self)@.functions.len(),
    {
        let r = self.functions.len();
        let entry = FunctionEntry { name: name.to_owned(), ty, blocks: Vec::new() };
        assert(entry.view().blocks =~= Seq::empty());
        self.functions.push(entry);
        assert(self@.functions =~= old(self)@.functions.push(entry.view()));
        assert(self@.globals =~= old(self)@.globals);
        proof {
            assert forall|i: int, j: int|
                0 <= i < self@.functions.len() && 0 <= j < self@.functions.len() && i != j
                implies #[trigger] self@.functions[i].name != #[trigger] self@.functions[j].name by {
                if i == r as int {
                    assert(self@.functions[j] == old(self)@.functions[j]);
                } else if j == r as int {
                    assert(self@.functions[i] == old(self)@.functions[i]);
                }
            }
        }
        r
    }

    /// Appends a block labelled `label` to function `f`; returns its position.
    pub(crate) fn push_block(&mut self, f: usize, label: &str) -> (r: usize)
        requires
            old(self).wf(),
            f < old(self)@.functions.len(),
        ensures
            final(self).wf(),
            final(self)@ == Self::with_block(old(self)@, f as int, label@),
            r == old(self)@.functions[f as int].blocks.len(),
    {
        let ghost before = self@;
        let mut entry = self.functions.remove(f);
        let r = entry.blocks.len();
        let ghost old_blocks = entry.blocks@;
        let s = label.to_owned();
        entry.blocks.push(s);
        assert(entry.view().blocks =~= before.functions[f as int].blocks.push(label@)) by {
            assert(entry.blocks@ =~= old_blocks.push(s));
        }
        self.functions.insert(f, entry);
        assert(self@.functions =~= Self::with_block(before, f as int, label@).functions);
        assert(self@.globals =~= before.globals);
        proof {
            assert forall|i: int, j: int|
                0 <= i < self@.functions.len() && 0 <= j < self@.functions.len() && i != j
                implies #[trigger] self@.functions[i].name != #[trigger] self@.functions[j].name by {
                assert(self@.functions[i].name == before.functions[i].name);
                assert(self@.functions[j].name == before.functions[j].name);
            }
        }
        r
    }
}


/// A violation found in a prefix of the table is the first one of the whole table.
pub proof fn lemma_functions_diag_prefix(fs: Seq<FunctionView>, k: int)
    requires
        0 <= k <= fs.len(),
        functions_diag(fs.subrange(0, k)) is Some,
    ensures
        functions_diag(fs) == functions_diag(fs.subrange(0, k)),
    decreases fs.len(),
{
    if k == fs.len() {
        assert(fs.subrange(0, k) =~= fs);
    } else {
        assert(fs.drop_last().subrange(0, k) =~= fs.subrange(0, k));
        lemma_functions_diag_prefix(fs.drop_last(), k);
    }
}

/// A violation found among the first globals is the first one of all of them.
pub proof fn lemma_globals_diag_prefix(gs: Seq<GlobalView>, k: int)
    requires
        0 <= k <= gs.len(),
        globals_diag(gs.subrange(0, k)) is Some,
    ensures
        globals_diag(gs) == globals_diag(gs.subrange(0, k)),
    decreases gs.len(),
{
    if k == gs.len() {
        assert(gs.subrange(0, k) =~= gs);
    } else {
        assert(gs.drop_last().subrange(0, k) =~= gs.subrange(0, k));
        lemma_globals_diag_prefix(gs.drop_last(), k);
    }
}

fn message(text: &str) -> (r: String)
    ensures
        r@ == text@,
{
    text.to_owned()
}

fn function_check(e: &FunctionEntry) -> (r: Option<String>)
    ensures
        r is None <==> function_diag(e.view()) is None,
        r is Some ==> r->Some_0@ == function_diag(e.view())->Some_0,
{
    if !(e.ty.ret.first_class() || matches!(e.ty.ret, IrType::Void)) {
        return Some(message("Function return type must be void or first-class"));
    }
    let mut k: usize = 0;
    while k < e.ty.params.len()
        invariant
            k <= e.ty.params@.len(),
            valid_return(e.ty.ret),
            forall|j: int| 0 <= j < k ==> is_first_class(#[trigger] e.ty.params@[j]),
        decreases e.ty.params@.len() - k,
    {
        if !e.ty.params[k].first_class() {
            assert(!is_first_class(e.view().ty.params[k as int]));
            return Some(message("Function arguments must have first-class types"));
        }
        k = k + 1;
    }
    assert(e.view().ty.params == e.ty.params@);
    None
}

fn global_check(g: &Global) -> (r: Option<String>)
    ensures
        r is None <==> global_diag(g.view()) is None,
        r is Some ==> r->Some_0@ == global_diag(g.view())->Some_0,
{
    if !g.ty.first_class() {
        return Some(message("Global variables must have a first-class type"));
    }
    match &g.init {
        Some(c) => {
            if !c.ty.same_as(&g.ty) {
                return Some(message("Global variable initializer type does not match global variable type"));
            }
            None
        },
        None => None,
    }
}

impl Module {
    /// Checks every function, then every global, and reports the first violation.
    /// The module is not changed, so the outcome depends on its contents alone.
    pub fn verify(&self) -> (r: Result<(), String>)
        ensures
            verify_result(self@, r),
    {
        let mut i: usize = 0;
        while i < self.functions.len()
            invariant
                i <= self.functions@.len(),
                functions_diag(self@.functions.subrange(0, i as int)) is None,
            decreases self.functions@.len() - i,
        {
            let ghost fs = self@.functions;
            assert(fs.subrange(0, i + 1).drop_last() =~= fs.subrange(0, i as int));
            assert(fs.subrange(0, i + 1).last() == self.functions@[i as int].view());
            if let Some(msg) = function_check(&self.functions[i]) {
                proof {
                    lemma_functions_diag_prefix(fs, i + 1);
                }
                return Err(msg);
            }
            i = i + 1;
        }
        assert(self@.functions.subrange(0, i as int) =~= self@.functions);
        let mut j: usize = 0;
        while j < self.globals.len()
            invariant
                j <= self.globals@.len(),
                functions_diag(self@.functions) is None,
                globals_diag(self@.globals.subrange(0, j as int)) is None,
            decreases self.globals@.len() - j,
        {
            let ghost gs = self@.globals;
            assert(gs.subrange(0, j + 1).drop_last() =~= gs.subrange(0, j as int));
            assert(gs.subrange(0, j + 1).last() == self.globals@[j as int].view());
            if let Some(msg) = global_check(&self.globals[j]) {
                proof {
                    lemma_globals_diag_prefix(gs, j + 1);
                }
                return Err(msg);
            }
            j = j + 1;
        }
        assert(self@.globals.subrange(0, j as int) =~= self@.globals);
        Ok(())
    }
}

impl Module {
    /// Declares `name` with `function_type`; an existing function of that name
    /// is returned as it is, with its own signature.
    pub fn add_function(&mut self, name: &str, function_type: FunctionType) -> (r: Function)
        requires
            old(self).wf(),
            old(self)@.functions.len() < usize::MAX,
        ensures
            final(self).wf(),
            Self::declared(old(self)@, name@) ==> *final(self) == *old(self),
            !Self::declared(old(self)@, name@) ==> final(self)@ == Self::with_function(
                old(self)@,
                name@,
                function_type@,
            ),
            r.handle() is Some,
            r.handle()->Some_0.index < final(self)@.functions.len(),
            final(self)@.functions[r.handle()->Some_0.index as int].name == name@,
            r.signature() == Some(final(self)@.functions[r.handle()->Some_0.index as int].ty),
    {
        Function::new(self, name, function_type)
    }

    /// Looks up the function named `name`; the null handle where there is none.
    pub fn named_function(&self, name: &str) -> (r: Function)
        requires
            self.wf(),
        ensures
            !Self::declared(self@, name@) ==> r.handle() is None && r.signature() is None,
            Self::declared(self@, name@) ==> {
                &&& r.handle() is Some
                &&& r.handle()->Some_0.index < self@.functions.len()
                &&& self@.functions[r.handle()->Some_0.index as int].name == name@
                &&& r.signature() == Some(self@.functions[r.handle()->Some_0.index as int].ty)
            },
    {
        match self.find(name) {
            Some(index) => Function::with_signature(index, self.signature_at(index)),
            None => Function::from_ptr(None),
        }
    }

    /// The function named `name` if there is one, whatever its type; otherwise a
    /// new declaration with `function_type`.
    pub fn get_or_add_function(&mut self, name: &str, function_type: FunctionType) -> (r: Function)
        requires
            old(self).wf(),
            old(self)@.functions.len() < usize::MAX,
        ensures
            final(self).wf(),
            Self::declared(old(self)@, name@) ==> *final(self) == *old(self),
            !Self::declared(old(self)@, name@) ==> final(self)@ == Self::with_function(
                old(self)@,
                name@,
                function_type@,
            ),
            r.handle() is Some,
            r.handle()->Some_0.index < final(self)@.functions.len(),
            final(self)@.functions[r.handle()->Some_0.index as int].name == name@,
            r.signature() == Some(final(self)@.functions[r.handle()->Some_0.index as int].ty),
    {
        let named = self.named_function(name);
        if named.is_null() {
            Function::new(self, name, function_type)
        } else {
            named
        }
    }

    /// Declares a module-level variable of type `ty`.
    pub fn add_global(&mut self, ty: IrType, name: &str) -> (r: GlobalRef)
        requires
            old(self).wf(),
        ensures
            final(self).wf(),
            final(self)@ == Self::with_global(old(self)@, name@, ty),
            r.index == old(self)@.globals.len(),
    {
        let r = GlobalRef { index: self.globals.len() };
        let g = Global { name: name.to_owned(), ty, init: None };
        self.globals.push(g);
        assert(self@.globals =~= old(self)@.globals.push(g.view()));
        assert(self@.functions =~= old(self)@.functions);
        r
    }

    /// Sets the initial value of `global`.
    pub fn set_initializer(&mut self, global: GlobalRef, val: Constant) -> (r: Result<(), HandleError>)
        requires
            old(self).wf(),
        ensures
            final(self).wf(),
            global.index >= old(self)@.globals.len() ==> r == Err::<(), HandleError>(HandleError::Stale)
                && *final(self) == *old(self),
            global.index < old(self)@.globals.len() ==> r is Ok && final(self)@ == Self::with_initializer(
                old(self)@,
                global.index as int,
                val,
            ),
    {
        if global.index >= self.globals.len() {
            return Err(HandleError::Stale);
        }
        let mut g = self.globals.remove(global.index);
        g.init = Some(val);
        self.globals.insert(global.index, g);
        assert(self@.globals =~= Self::with_initializer(old(self)@, global.index as int, val).globals);
        assert(self@.functions =~= old(self)@.functions);
        Ok(())
    }
}

/// Adding a function under a fresh name, then looking that name up, gives back
/// the signature that was added.
pub proof fn lemma_lookup_after_add(m: ModuleView, name: Seq<char>, ty: FunctionTypeView)
    requires
        names_unique(m.functions),
        !Module::declared(m, name),
    ensures
        Module::declared(Module::with_function(m, name, ty), name),
        names_unique(Module::with_function(m, name, ty).functions),
        forall|i: int|
            0 <= i < m.functions.len() + 1 && #[trigger] Module::with_function(m, name, ty).functions[i].name
                == name ==> Module::with_function(m, name, ty).functions[i].ty == ty,
{
    let m2 = Module::with_function(m, name, ty);
    assert(m2.functions[m.functions.len() as int].name == name);
    assert forall|i: int|
        0 <= i < m.functions.len() + 1 && #[trigger] m2.functions[i].name == name implies m2.functions[i].ty == ty by {
        if i < m.functions.len() {
            assert(m2.functions[i] == m.functions[i]);
        }
    }
    assert forall|i: int, j: int|
        0 <= i < m2.functions.len() && 0 <= j < m2.functions.len() && i != j
        implies #[trigger] m2.functions[i].name != #[trigger] m2.functions[j].name by {
        if i < m.functions.len() {
            assert(m2.functions[i] == m.functions[i]);
        }
        if j < m.functions.len() {
            assert(m2.functions[j] == m.functions[j]);
        }
    }
}

/// Two lookups of one name in a module land on the same entry: after a first
/// get-or-add the name is declared, and a name names at most one entry.
pub proof fn lemma_get_or_add_stable(m: ModuleView, name: Seq<char>, ty: FunctionTypeView)
    requires
        names_unique(m.functions),
    ensures
        ({
            let m1 = if Module::declared(m, name) { m } else { Module::with_function(m, name, ty) };
            &&& Module::declared(m1, name)
            &&& names_unique(m1.functions)
            &&& forall|i: int, j: int|
                0 <= i < m1.functions.len() && 0 <= j < m1.functions.len() && #[trigger] m1.functions[i].name
                    == name && #[trigger] m1.functions[j].name == name ==> i == j
        }),
{
    if !Module::declared(m, name) {
        lemma_lookup_after_add(m, name, ty);
    }
}

/// Verification reads the module and nothing else: two verifications of the
/// same contents give the same outcome.
pub proof fn lemma_verify_idempotent(m: ModuleView, r1: Result<(), String>, r2: Result<(), String>)
    requires
        verify_result(m, r1),
        verify_result(m, r2),
    ensures
        r1 is Ok <==> r2 is Ok,
        r1 is Err ==> r1->Err_0@ == r2->Err_0@,
{
}

} // verus!
