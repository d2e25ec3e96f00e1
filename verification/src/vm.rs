//! The session: register slots, heaps, handle table, error queue.
//!
//! The interpreter proper is a black box. Everything host code exchanges
//! with it travels through the state modelled here: a register file of
//! slots, a heap of lists, a heap of type-tagged foreign cells, a table of
//! pinned handles with a deferred release queue, the modules' top-level
//! variables, and the queue of error events recorded by callbacks. What
//! the black box decides (compiling and running scripts) enters through
//! outcome values handed to [`WrenVm::interpret`] and the call operations.
use vstd::prelude::*;

use crate::class::{ForeignValue, WrenCell};
use crate::errors::{ForeignError, WrenCompileError, WrenError, WrenResult, WrenStackFrame, WrenVmError};
use crate::foreign::ForeignBindings;
use crate::text::str_eq;
use crate::types::{SlotValue, WrenInterpretResult, WrenType};

verus! {

/// What a pinned handle refers to.
#[derive(Debug)]
pub enum HandleTarget {
    /// Any value: a variable's contents, a list, a foreign object.
    Value(SlotValue),
    /// A compiled function signature.
    FnSym(String),
}

impl Clone for HandleTarget {
    fn clone(&self) -> (res: Self)
        ensures
            res == self,
    {
        match self {
            HandleTarget::Value(v) => HandleTarget::Value(v.clone()),
            HandleTarget::FnSym(s) => HandleTarget::FnSym(s.clone()),
        }
    }
}

/// One row of the handle table. While `alive`, the referenced value is
/// pinned against garbage collection.
#[derive(Debug)]
pub struct HandleEntry {
    pub alive: bool,
    pub target: HandleTarget,
}

impl Clone for HandleEntry {
    fn clone(&self) -> (res: Self)
        ensures
            res == self,
    {
        HandleEntry { alive: self.alive, target: self.target.clone() }
    }
}

/// A top-level variable of a module.
#[derive(Debug)]
pub struct Variable {
    pub name: String,
    pub value: SlotValue,
}

/// A module known to the session, with its top-level variables.
#[derive(Debug)]
pub struct ModuleEntry {
    pub name: String,
    pub vars: Vec<Variable>,
}

/// State that interpreter callbacks share with host code: the binding
/// registry, the queue of recorded error events, the deferred handle
/// release queue, and the collected script output.
#[derive(Debug)]
pub struct UserData {
    pub foreign: ForeignBindings,
    pub errors: Vec<WrenVmError>,
    pub release_queue: Vec<usize>,
    pub output: Vec<String>,
}

/// The index of the module with the given name, counted such that the
/// newest entry wins; `-1` when absent.
pub open spec fn find_module(mods: Seq<ModuleEntry>, name: Seq<char>) -> int
    decreases mods.len(),
{
    if mods.len() == 0 {
        -1
    } else if mods.last().name@ == name {
        mods.len() - 1
    } else {
        find_module(mods.drop_last(), name)
    }
}

/// The value of the named variable, the newest definition winning; `None`
/// when absent.
pub open spec fn lookup_var_in(vars: Seq<Variable>, name: Seq<char>) -> Option<SlotValue>
    decreases vars.len(),
{
    if vars.len() == 0 {
        None
    } else if vars.last().name@ == name {
        Some(vars.last().value)
    } else {
        lookup_var_in(vars.drop_last(), name)
    }
}

/// The value of a module's top-level variable, or `None` when either the
/// module or the variable is absent.
pub open spec fn lookup_var(mods: Seq<ModuleEntry>, module: Seq<char>, name: Seq<char>) -> Option<
    SlotValue,
> {
    let i = find_module(mods, module);
    if i < 0 {
        None
    } else {
        lookup_var_in(mods[i].vars@, name)
    }
}

/// The whole state an interpret or call operation works on.
#[derive(Debug)]
pub struct WrenContext {
    /// The register file. A slot may be used only after `ensure_slots` has
    /// grown the file past it.
    pub slots: Vec<SlotValue>,
    /// The list heap; a `SlotValue::List` holds an index into it.
    pub lists: Vec<Vec<SlotValue>>,
    /// The foreign cell heap; a `SlotValue::Foreign` holds an index into it.
    pub cells: Vec<WrenCell<ForeignValue>>,
    /// The handle table. Entries are only ever added or marked dead.
    pub handles: Vec<HandleEntry>,
    /// The modules with their top-level variables.
    pub modules: Vec<ModuleEntry>,
    /// State shared with the interpreter callbacks.
    pub user: UserData,
}

impl WrenContext {
    /// A value's heap references stay inside the heaps.
    pub open spec fn value_ok(self, v: SlotValue) -> bool {
        match v {
            SlotValue::List(id) => id < self.lists@.len(),
            SlotValue::Foreign(id) => id < self.cells@.len(),
            _ => true,
        }
    }

    pub open spec fn target_ok(self, t: HandleTarget) -> bool {
        match t {
            HandleTarget::Value(v) => self.value_ok(v),
            HandleTarget::FnSym(_) => true,
        }
    }

    /// Every stored value references only existing heap entries, and the
    /// release queue names only existing handles.
    pub open spec fn wf(self) -> bool {
        &&& (forall|i: int|
            0 <= i < self.slots@.len() ==> self.value_ok(#[trigger] self.slots@[i]))
        &&& (forall|l: int, j: int|
            0 <= l < self.lists@.len() && 0 <= j < self.lists@[l]@.len() ==> self.value_ok(
                #[trigger] self.lists@[l]@[j],
            ))
        &&& (forall|h: int|
            0 <= h < self.handles@.len() ==> self.target_ok(#[trigger] self.handles@[h].target))
        &&& (forall|m: int, k: int|
            0 <= m < self.modules@.len() && 0 <= k < self.modules@[m].vars@.len() ==> self.value_ok(
                #[trigger] self.modules@[m].vars@[k].value,
            ))
        &&& (forall|q: int|
            0 <= q < self.user.release_queue@.len() ==> #[trigger] self.user.release_queue@[q]
                < self.handles@.len())
    }

    /// The current number of register slots.
    pub fn slot_count(&self) -> (n: usize)
        ensures
            n == self.slots@.len(),
    {
        self.slots.len()
    }

    /// Grow the register file to at least `n` slots. New slots hold null.
    /// Slots already present keep their contents.
    pub fn ensure_slots(&mut self, n: usize)
        requires
            old(self).wf(),
        ensures
            final(self).wf(),
            final(self).slots@.len() == if old(self).slots@.len() >= n {
                old(self).slots@.len() as int
            } else {
                n as int
            },
            forall|i: int|
                0 <= i < old(self).slots@.len() ==> final(self).slots@[i] == old(self).slots@[i],
            forall|i: int|
                old(self).slots@.len() <= i < final(self).slots@.len() ==> final(self).slots@[i]
                    == SlotValue::Null,
            final(self).lists == old(self).lists,
            final(self).cells == old(self).cells,
            final(self).handles == old(self).handles,
            final(self).modules == old(self).modules,
            final(self).user == old(self).user,
    {
        while self.slots.len() < n
            invariant
                old(self).wf(),
                self.slots@.len() >= old(self).slots@.len(),
                self.slots@.len() <= n || self.slots@.len() == old(self).slots@.len(),
                forall|i: int|
                    0 <= i < old(self).slots@.len() ==> self.slots@[i] == old(self).slots@[i],
                forall|i: int|
                    old(self).slots@.len() <= i < self.slots@.len() ==> self.slots@[i]
                        == SlotValue::Null,
                self.lists == old(self).lists,
                self.cells == old(self).cells,
                self.handles == old(self).handles,
                self.modules == old(self).modules,
                self.user == old(self).user,
            decreases n - self.slots@.len(),
        {
            self.slots.push(SlotValue::Null);
        }
    }

    /// The dynamic type of the value in the given slot, or `None` when the
    /// slot index is out of bounds.
    pub fn slot_type(&self, slot: usize) -> (r: Option<WrenType>)
        ensures
            r == if slot < self.slots@.len() {
                Some(self.slots@[slot as int].ty())
            } else {
                None::<WrenType>
            },
    {
        if slot >= self.slots.len() {
            None
        } else {
            Some(self.slots[slot].slot_type())
        }
    }

    /// Store a value in a slot that exists.
    pub fn write_slot(&mut self, slot: usize, v: SlotValue)
        requires
            old(self).wf(),
            slot < old(self).slots@.len(),
            old(self).value_ok(v),
        ensures
            final(self).wf(),
            final(self).slots@ == old(self).slots@.update(slot as int, v),
            final(self).lists == old(self).lists,
            final(self).cells == old(self).cells,
            final(self).handles == old(self).handles,
            final(self).modules == old(self).modules,
            final(self).user == old(self).user,
    {
        self.slots.set(slot, v);
    }

    /// Pin a new handle onto the table; returns its index.
    pub fn new_handle(&mut self, target: HandleTarget) -> (id: usize)
        requires
            old(self).wf(),
            old(self).target_ok(target),
        ensures
            final(self).wf(),
            id == old(self).handles@.len(),
            final(self).handles@ == old(self).handles@.push(
                HandleEntry { alive: true, target },
            ),
            final(self).slots == old(self).slots,
            final(self).lists == old(self).lists,
            final(self).cells == old(self).cells,
            final(self).modules == old(self).modules,
            final(self).user == old(self).user,
    {
        let id = self.handles.len();
        self.handles.push(HandleEntry { alive: true, target });
        id
    }

    /// Enqueue a handle for release at the next maintenance checkpoint.
    ///
    /// Release is deferred: the interpreter must not be asked to release a
    /// handle while it may be mid-call or mid-collection.
    pub fn queue_release(&mut self, handle: usize)
        requires
            old(self).wf(),
            handle < old(self).handles@.len(),
        ensures
            final(self).wf(),
            final(self).user.release_queue@ == old(self).user.release_queue@.push(handle),
            final(self).user.foreign == old(self).user.foreign,
            final(self).user.errors == old(self).user.errors,
            final(self).user.output == old(self).user.output,
            final(self).slots == old(self).slots,
            final(self).lists == old(self).lists,
            final(self).cells == old(self).cells,
            final(self).handles == old(self).handles,
            final(self).modules == old(self).modules,
    {
        self.user.release_queue.push(handle);
    }

    /// Append a new, empty list to the list heap; returns its index.
    pub fn new_list(&mut self) -> (id: usize)
        requires
            old(self).wf(),
        ensures
            final(self).wf(),
            id == old(self).lists@.len(),
            final(self).lists@.len() == old(self).lists@.len() + 1,
            forall|l: int|
                0 <= l < old(self).lists@.len() ==> final(self).lists@[l] == old(self).lists@[l],
            final(self).lists@[id as int]@ == Seq::<SlotValue>::empty(),
            final(self).slots == old(self).slots,
            final(self).cells == old(self).cells,
            final(self).handles == old(self).handles,
            final(self).modules == old(self).modules,
            final(self).user == old(self).user,
    {
        let id = self.lists.len();
        self.lists.push(Vec::new());
        id
    }

    /// Append a new foreign cell, holding the given host payload under the
    /// given type tag, to the foreign heap; returns its index. This is the
    /// allocate half of a foreign class's lifecycle.
    pub fn new_foreign(&mut self, type_id: u64, value: ForeignValue) -> (id: usize)
        requires
            old(self).wf(),
        ensures
            final(self).wf(),
            id == old(self).cells@.len(),
            final(self).cells@.len() == old(self).cells@.len() + 1,
            forall|c: int|
                0 <= c < old(self).cells@.len() ==> final(self).cells@[c] == old(self).cells@[c],
            final(self).cells@[id as int] == (WrenCell {
                type_id,
                flag: crate::class::BorrowFlag::Available,
                value,
            }),
            final(self).slots == old(self).slots,
            final(self).lists == old(self).lists,
            final(self).handles == old(self).handles,
            final(self).modules == old(self).modules,
            final(self).user == old(self).user,
    {
        let id = self.cells.len();
        self.cells.push(WrenCell::new(type_id, value));
        id
    }

    /// The index of the named module, newest entry winning.
    pub(crate) fn find_module_exec(&self, module: &str) -> (r: Option<usize>)
        ensures
            match r {
                Some(i) => find_module(self.modules@, module@) == i && i < self.modules@.len()
                    && self.modules@[i as int].name@ == module@,
                None => find_module(self.modules@, module@) == -1,
            },
    {
        let mut i = self.modules.len();
        proof {
            assert(self.modules@.subrange(0, self.modules@.len() as int) =~= self.modules@);
        }
        while i > 0
            invariant
                i <= self.modules@.len(),
                find_module(self.modules@.subrange(0, i as int), module@) == find_module(
                    self.modules@,
                    module@,
                ),
            decreases i,
        {
            i -= 1;
            proof {
                assert(self.modules@.subrange(0, i + 1).drop_last() =~= self.modules@.subrange(
                    0,
                    i as int,
                ));
                assert(self.modules@.subrange(0, i + 1).last() == self.modules@[i as int]);
            }
            if str_eq(self.modules[i].name.as_str(), module) {
                proof {
                    lemma_find_module_valid(self.modules@, module@);
                }
                return Some(i);
            }
        }
        None
    }

    /// Whether a module of the given name exists.
    pub fn has_module(&self, module: &str) -> (r: bool)
        ensures
            r == (find_module(self.modules@, module@) >= 0),
    {
        self.find_module_exec(module).is_some()
    }

    /// Whether the named top-level variable exists in the named module.
    /// Absence of the module is reported the same way as absence of the
    /// variable.
    pub fn has_var(&self, module: &str, name: &str) -> (r: bool)
        ensures
            r == (lookup_var(self.modules@, module@, name@) is Some),
    {
        match self.find_module_exec(module) {
            None => false,
            Some(m) => self.lookup_var_exec(m, name).is_some(),
        }
    }

    /// The value of a variable in the module with index `m`.
    pub(crate) fn lookup_var_exec(&self, m: usize, name: &str) -> (r: Option<SlotValue>)
        requires
            m < self.modules@.len(),
        ensures
            r == lookup_var_in(self.modules@[m as int].vars@, name@),
            r matches Some(v) ==> self.wf() ==> self.value_ok(v),
    {
        let vars = &self.modules[m].vars;
        let mut i = vars.len();
        proof {
            assert(vars@.subrange(0, vars@.len() as int) =~= vars@);
        }
        while i > 0
            invariant
                i <= vars@.len(),
                m < self.modules@.len(),
                vars@ == self.modules@[m as int].vars@,
                lookup_var_in(vars@.subrange(0, i as int), name@) == lookup_var_in(vars@, name@),
            decreases i,
        {
            i -= 1;
            proof {
                assert(vars@.subrange(0, i + 1).drop_last() =~= vars@.subrange(0, i as int));
                assert(vars@.subrange(0, i + 1).last() == vars@[i as int]);
            }
            if str_eq(vars[i].name.as_str(), name) {
                proof {
                    if self.wf() {
                        assert(0 <= m < self.modules@.len());
                        assert(0 <= i < self.modules@[m as int].vars@.len());
                        assert(self.value_ok(self.modules@[m as int].vars@[i as int].value));
                    }
                    assert(lookup_var_in(vars@.subrange(0, i + 1), name@) == Some(
                        vars@[i as int].value,
                    ));
                }
                return Some(vars[i].value.clone());
            }
        }
        None
    }

    /// Define or redefine a module's top-level variable, creating the
    /// module if it does not exist yet. The newest definition wins lookups.
    pub fn set_var(&mut self, module: &str, name: &str, value: SlotValue)
        requires
            old(self).wf(),
            old(self).value_ok(value),
        ensures
            final(self).wf(),
            lookup_var(final(self).modules@, module@, name@) == Some(value),
            final(self).slots == old(self).slots,
            final(self).lists == old(self).lists,
            final(self).cells == old(self).cells,
            final(self).handles == old(self).handles,
            final(self).user == old(self).user,
            find_module(final(self).modules@, module@) >= 0,
            // No module other than the named one comes into existence.
            forall|m2: Seq<char>|
                #[trigger] find_module(final(self).modules@, m2) >= 0 ==> find_module(
                    old(self).modules@,
                    m2,
                ) >= 0 || m2 == module@,
            // Other modules and other variables keep their values.
            forall|m2: Seq<char>, n2: Seq<char>|
                !(m2 == module@ && n2 == name@) ==> #[trigger] lookup_var(
                    final(self).modules@,
                    m2,
                    n2,
                ) == lookup_var(old(self).modules@, m2, n2),
    {
        match self.find_module_exec(module) {
            Some(m) => {
                let ghost oldmods = self.modules@;
                let var = Variable { name: name_string(name), value };
                let ghost varg = var;
                self.modules[m].vars.push(var);
                proof {
                    let newmods = self.modules@;
                    assert(newmods[m as int].vars@ == oldmods[m as int].vars@.push(varg));
                    assert(newmods == oldmods.update(m as int, newmods[m as int]));
                    lemma_find_module_valid(oldmods, module@);
                    assert(oldmods[m as int].name@ == module@);
                    assert forall|nm: Seq<char>| #[trigger]
                        find_module(newmods, nm) == find_module(oldmods, nm) by {
                        lemma_find_module_update(oldmods, m as int, newmods[m as int], nm);
                    }
                    assert(newmods[m as int].vars@.drop_last() =~= oldmods[m as int].vars@);
                    assert(lookup_var(newmods, module@, name@) == Some(value));
                    assert forall|m2: Seq<char>, n2: Seq<char>|
                        !(m2 == module@ && n2 == name@) implies #[trigger] lookup_var(
                        newmods,
                        m2,
                        n2,
                    ) == lookup_var(oldmods, m2, n2) by {
                        let i = find_module(oldmods, m2);
                        lemma_find_module_valid(oldmods, m2);
                        if i >= 0 {
                            if i == m {
                                // Same module, so the variable name differs
                                // and the pushed definition does not shadow.
                                assert(m2 == module@);
                                assert(lookup_var_in(newmods[m as int].vars@, n2)
                                    == lookup_var_in(oldmods[m as int].vars@, n2));
                            } else {
                                assert(newmods[i] == oldmods[i]);
                            }
                        }
                    }
                }
            },
            None => {
                let ghost oldmods = self.modules@;
                let mut vars: Vec<Variable> = Vec::new();
                vars.push(Variable { name: name_string(name), value });
                self.modules.push(ModuleEntry { name: name_string(module), vars });
                proof {
                    let newmods = self.modules@;
                    assert(newmods.last().name@ == module@);
                    assert(newmods.drop_last() =~= oldmods);
                    assert(find_module(newmods, module@) == newmods.len() - 1);
                    assert(newmods.last().vars@.last().name@ == name@);
                    assert(lookup_var(newmods, module@, name@) == Some(value));
                    assert forall|m2: Seq<char>| m2 != module@ implies #[trigger] find_module(
                        newmods,
                        m2,
                    ) == find_module(oldmods, m2) by {}
                    assert forall|m2: Seq<char>, n2: Seq<char>|
                        !(m2 == module@ && n2 == name@) implies #[trigger] lookup_var(
                        newmods,
                        m2,
                        n2,
                    ) == lookup_var(oldmods, m2, n2) by {
                        if m2 == module@ {
                            // The module is brand new with a single variable
                            // of another name; before, it did not exist.
                            assert(newmods.last().vars@.len() == 1);
                            assert(!(newmods.last().vars@.last().name@ == n2));
                            let tail = newmods.last().vars@.drop_last();
                            assert(tail.len() == 0);
                            assert(lookup_var_in(tail, n2) is None);
                            assert(lookup_var_in(newmods.last().vars@, n2) == lookup_var_in(
                                tail,
                                n2,
                            ));
                        } else {
                            assert(find_module(newmods, m2) == find_module(oldmods, m2));
                            lemma_find_module_valid(oldmods, m2);
                        }
                    }
                }
            },
        }
    }
}

/// Replacing a module entry with one of the same name moves no name, so
/// every module search lands where it did.
proof fn lemma_find_module_update(mods: Seq<ModuleEntry>, m: int, e: ModuleEntry, nm: Seq<char>)
    requires
        0 <= m < mods.len(),
        e.name@ == mods[m].name@,
    ensures
        find_module(mods.update(m, e), nm) == find_module(mods, nm),
    decreases mods.len(),
{
    let upd = mods.update(m, e);
    assert(upd.len() == mods.len());
    if m == mods.len() - 1 {
        assert(upd.last() == e);
        assert(upd.drop_last() =~= mods.drop_last());
    } else {
        assert(upd.last() == mods.last());
        assert(upd.drop_last() =~= mods.drop_last().update(m, e));
        lemma_find_module_update(mods.drop_last(), m, e, nm);
    }
}

/// A successful module search returns an index whose entry bears the name.
proof fn lemma_find_module_valid(mods: Seq<ModuleEntry>, nm: Seq<char>)
    ensures
        find_module(mods, nm) == -1 || (0 <= find_module(mods, nm) < mods.len() && mods[find_module(
            mods,
            nm,
        )].name@ == nm),
    decreases mods.len(),
{
    if mods.len() > 0 && !(mods.last().name@ == nm) {
        lemma_find_module_valid(mods.drop_last(), nm);
    }
}

/// Copy a borrowed name into an owned string.
fn name_string(s: &str) -> (r: String)
    ensures
        r@ == s@,
{
    String::from_str(s)
}

/// The compile diagnostics among the events, in order.
pub open spec fn compile_diags(evs: Seq<WrenVmError>) -> Seq<WrenCompileError>
    decreases evs.len(),
{
    if evs.len() == 0 {
        Seq::empty()
    } else {
        (match evs[0] {
            WrenVmError::Compile { module, message, line } => seq![
                WrenCompileError { module, message, line },
            ],
            _ => Seq::empty(),
        }) + compile_diags(evs.drop_first())
    }
}

/// The runtime message: every `Runtime` event's text, concatenated in
/// order.
pub open spec fn runtime_message(evs: Seq<WrenVmError>) -> Seq<char>
    decreases evs.len(),
{
    if evs.len() == 0 {
        Seq::empty()
    } else {
        (match evs[0] {
            WrenVmError::Runtime { msg } => msg@,
            _ => Seq::empty(),
        }) + runtime_message(evs.drop_first())
    }
}

/// The stack trace frames among the events, top frame first.
pub open spec fn stack_frames(evs: Seq<WrenVmError>) -> Seq<WrenStackFrame>
    decreases evs.len(),
{
    if evs.len() == 0 {
        Seq::empty()
    } else {
        (match evs[0] {
            WrenVmError::StackTrace { module, function, line, is_foreign } => seq![
                WrenStackFrame { module, function, line, is_foreign },
            ],
            _ => Seq::empty(),
        }) + stack_frames(evs.drop_first())
    }
}

/// The first host-originated cause among the events, if any.
pub open spec fn first_foreign(evs: Seq<WrenVmError>) -> Option<ForeignError>
    decreases evs.len(),
{
    if evs.len() == 0 {
        None
    } else {
        match evs[0] {
            WrenVmError::Foreign(e) => Some(e),
            _ => first_foreign(evs.drop_first()),
        }
    }
}

/// How many events carry a host-originated cause.
pub open spec fn foreign_count(evs: Seq<WrenVmError>) -> int
    decreases evs.len(),
{
    if evs.len() == 0 {
        0
    } else {
        (if evs[0] is Foreign {
            1int
        } else {
            0int
        }) + foreign_count(evs.drop_first())
    }
}

proof fn lemma_foreign_count_nonneg(evs: Seq<WrenVmError>)
    ensures
        foreign_count(evs) >= 0,
    decreases evs.len(),
{
    if evs.len() > 0 {
        lemma_foreign_count_nonneg(evs.drop_first());
    }
}

/// A compile failure queues compile diagnostics and nothing else.
pub open spec fn compile_only(evs: Seq<WrenVmError>) -> bool {
    forall|i: int| 0 <= i < evs.len() ==> (#[trigger] evs[i]) is Compile
}

/// A runtime failure queues no compile diagnostic and at most one
/// host-originated cause.
pub open spec fn runtime_shaped(evs: Seq<WrenVmError>) -> bool {
    (forall|i: int| 0 <= i < evs.len() ==> !((#[trigger] evs[i]) is Compile)) && foreign_count(evs)
        <= 1
}

/// What the interpreter's callback discipline guarantees about the queue
/// drained under each result code.
pub open spec fn events_consistent(code: WrenInterpretResult, evs: Seq<WrenVmError>) -> bool {
    match code {
        WrenInterpretResult::Success => true,
        WrenInterpretResult::CompileError => compile_only(evs),
        WrenInterpretResult::RuntimeError => runtime_shaped(evs),
    }
}

impl WrenContext {
    /// Drain the error queue and shape it into the result of one interpret
    /// or call operation.
    ///
    /// A success code with a non-empty queue, or a failure code with an
    /// empty queue, is an internal consistency violation and is itself
    /// reported as a distinct error. A compile failure yields every queued
    /// diagnostic in source order; a runtime failure yields the
    /// concatenated message, the first host-originated cause if one was
    /// queued, and the stack frames in order.
    #[verifier::loop_isolation(false)]
    pub fn take_errors(&mut self, result: WrenInterpretResult) -> (r: WrenResult<()>)
        requires
            old(self).wf(),
            events_consistent(result, old(self).user.errors@),
        ensures
            final(self).wf(),
            final(self).user.errors@ == Seq::<WrenVmError>::empty(),
            final(self).slots == old(self).slots,
            final(self).lists == old(self).lists,
            final(self).cells == old(self).cells,
            final(self).handles == old(self).handles,
            final(self).modules == old(self).modules,
            final(self).user.foreign == old(self).user.foreign,
            final(self).user.release_queue == old(self).user.release_queue,
            final(self).user.output == old(self).user.output,
            match result {
                WrenInterpretResult::Success => if old(self).user.errors@.len() == 0 {
                    r == Ok::<(), WrenError>(())
                } else {
                    r == Err::<(), WrenError>(WrenError::ResultQueueMismatch)
                },
                WrenInterpretResult::CompileError => if old(self).user.errors@.len() == 0 {
                    r == Err::<(), WrenError>(WrenError::ErrorAbsent(result))
                } else {
                    r matches Err(WrenError::CompileError(ds)) && ds@ == compile_diags(
                        old(self).user.errors@,
                    )
                },
                WrenInterpretResult::RuntimeError => if old(self).user.errors@.len() == 0 {
                    r == Err::<(), WrenError>(WrenError::ErrorAbsent(result))
                } else {
                    r matches Err(WrenError::RuntimeError { message, foreign, stack })
                        && message@ == runtime_message(old(self).user.errors@) && foreign
                        == first_foreign(old(self).user.errors@) && stack@ == stack_frames(
                        old(self).user.errors@,
                    )
                },
            },
    {
        let ghost orig = old(self).user.errors@;
        let mut evs: Vec<WrenVmError> = Vec::new();
        core::mem::swap(&mut self.user.errors, &mut evs);
        match result {
            WrenInterpretResult::Success => {
                if evs.len() == 0 {
                    Ok(())
                } else {
                    Err(WrenError::ResultQueueMismatch)
                }
            },
            WrenInterpretResult::CompileError => {
                if evs.len() == 0 {
                    return Err(WrenError::ErrorAbsent(result));
                }
                let mut ds: Vec<WrenCompileError> = Vec::new();
                while evs.len() > 0
                    invariant
                        compile_only(evs@),
                        ds@ + compile_diags(evs@) == compile_diags(orig),
                    decreases evs@.len(),
                {
                    let ghost pre = evs@;
                    let ev = evs.remove(0);
                    proof {
                        assert(evs@ =~= pre.drop_first());
                        assert(ev == pre[0]);
                        assert forall|i: int| 0 <= i < evs@.len() implies (#[trigger] evs@[i])
                            is Compile by {
                            assert(evs@[i] == pre[i + 1]);
                        }
                    }
                    match ev {
                        WrenVmError::Compile { module, message, line } => {
                            ds.push(WrenCompileError { module, message, line });
                        },
                        _ => {
                            proof {
                                assert(false);
                            }
                        },
                    }
                }
                proof {
                    assert(compile_diags(evs@) =~= Seq::<WrenCompileError>::empty());
                    assert(ds@ =~= compile_diags(orig));
                }
                Err(WrenError::CompileError(ds))
            },
            WrenInterpretResult::RuntimeError => {
                if evs.len() == 0 {
                    return Err(WrenError::ErrorAbsent(result));
                }
                let mut message = String::new();
                let mut foreign: Option<ForeignError> = None;
                let mut stack: Vec<WrenStackFrame> = Vec::new();
                proof {
                    lemma_foreign_count_nonneg(evs@);
                }
                while evs.len() > 0
                    invariant
                        forall|i: int| 0 <= i < evs@.len() ==> !((#[trigger] evs@[i]) is Compile),
                        message@ + runtime_message(evs@) == runtime_message(orig),
                        stack@ + stack_frames(evs@) == stack_frames(orig),
                        first_foreign(orig) == (match foreign {
                            Some(e) => Some(e),
                            None => first_foreign(evs@),
                        }),
                        foreign_count(orig) == (if foreign is Some {
                            1int
                        } else {
                            0int
                        }) + foreign_count(evs@),
                    decreases evs@.len(),
                {
                    let ghost pre = evs@;
                    let ev = evs.remove(0);
                    proof {
                        assert(evs@ =~= pre.drop_first());
                        assert(ev == pre[0]);
                        assert forall|i: int| 0 <= i < evs@.len() implies !((#[trigger] evs@[i])
                            is Compile) by {
                            assert(evs@[i] == pre[i + 1]);
                        }
                        lemma_foreign_count_nonneg(evs@);
                    }
                    match ev {
                        WrenVmError::Runtime { msg } => {
                            message.append(msg.as_str());
                        },
                        WrenVmError::StackTrace { module, function, line, is_foreign } => {
                            stack.push(WrenStackFrame { module, function, line, is_foreign });
                        },
                        WrenVmError::Foreign(e) => {
                            if foreign.is_some() {
                                // A second host-originated cause cannot be
                                // queued under a consistent callback
                                // discipline.
                                proof {
                                    assert(false);
                                }
                            } else {
                                foreign = Some(e);
                            }
                        },
                        WrenVmError::Compile { .. } => {
                            proof {
                                assert(false);
                            }
                        },
                    }
                }
                proof {
                    assert(message@ =~= runtime_message(orig));
                    assert(stack@ =~= stack_frames(orig));
                }
                Err(WrenError::RuntimeError { message, foreign, stack })
            },
        }
    }

    /// Make the named module exist, with no variables yet; a module that
    /// already exists is left alone.
    pub fn ensure_module(&mut self, module: &str)
        requires
            old(self).wf(),
        ensures
            final(self).wf(),
            find_module(final(self).modules@, module@) >= 0,
            forall|m2: Seq<char>, n2: Seq<char>|
                #[trigger] lookup_var(final(self).modules@, m2, n2) == lookup_var(
                    old(self).modules@,
                    m2,
                    n2,
                ),
            // No module other than the named one comes into existence.
            forall|m2: Seq<char>|
                #[trigger] find_module(final(self).modules@, m2) >= 0 ==> find_module(
                    old(self).modules@,
                    m2,
                ) >= 0 || m2 == module@,
            find_module(old(self).modules@, module@) >= 0 ==> final(self).modules == old(
                self,
            ).modules,
            final(self).slots == old(self).slots,
            final(self).lists == old(self).lists,
            final(self).cells == old(self).cells,
            final(self).handles == old(self).handles,
            final(self).user == old(self).user,
    {
        if self.find_module_exec(module).is_none() {
            let ghost oldmods = self.modules@;
            self.modules.push(ModuleEntry { name: name_string(module), vars: Vec::new() });
            proof {
                let newmods = self.modules@;
                assert(newmods.drop_last() =~= oldmods);
                assert(newmods.last().name@ == module@);
                assert(find_module(newmods, module@) == newmods.len() - 1);
                assert forall|m2: Seq<char>| m2 != module@ implies #[trigger] find_module(
                    newmods,
                    m2,
                ) == find_module(oldmods, m2) by {}
                assert forall|m2: Seq<char>, n2: Seq<char>| #[trigger]
                    lookup_var(newmods, m2, n2) == lookup_var(oldmods, m2, n2) by {
                    if m2 == module@ {
                        assert(lookup_var_in(newmods.last().vars@, n2) is None);
                        assert(find_module(oldmods, m2) == -1);
                    } else {
                        assert(find_module(newmods, m2) == find_module(oldmods, m2));
                        lemma_find_module_valid(oldmods, m2);
                    }
                }
            }
        }
    }

    /// A read-only view of the state shared with interpreter callbacks.
    pub fn user_data(&self) -> (r: &UserData)
        ensures
            r == &self.user,
    {
        &self.user
    }
}

/// The newest definition of a name among a run's definitions, if any.
pub open spec fn defs_lookup(defs: Seq<Variable>, name: Seq<char>) -> Option<SlotValue>
    decreases defs.len(),
{
    if defs.len() == 0 {
        None
    } else if defs.last().name@ == name {
        Some(defs.last().value)
    } else {
        defs_lookup(defs.drop_last(), name)
    }
}

/// What the black-box interpreter did with one source text: its result
/// code, the error events its callbacks recorded while it ran, and the
/// top-level variables a successful run defined, in order.
#[derive(Debug)]
pub struct InterpretOutcome {
    pub code: WrenInterpretResult,
    pub events: Vec<WrenVmError>,
    pub defs: Vec<Variable>,
}

/// A session: the context state, owned across interpret and call
/// operations.
#[derive(Debug)]
pub struct WrenVm {
    pub ctx: WrenContext,
}

impl WrenVm {
    /// The current number of register slots.
    pub fn slot_count(&self) -> (n: usize)
        ensures
            n == self.ctx.slots@.len(),
    {
        self.ctx.slot_count()
    }

    /// Open a context scope for slot and handle operations.
    ///
    /// Call [`WrenVm::maintain`] once the borrow ends: the end of a context
    /// scope is a maintenance checkpoint.
    pub fn context(&mut self) -> (r: &mut WrenContext)
        ensures
            *r == old(self).ctx,
            final(self).ctx == *final(r),
    {
        &mut self.ctx
    }

    /// Drain the deferred release queue, marking every queued handle dead.
    ///
    /// This is the maintenance checkpoint: release happens here and never
    /// in the middle of an operation.
    #[verifier::loop_isolation(false)]
    pub fn maintain(&mut self)
        requires
            old(self).ctx.wf(),
        ensures
            final(self).ctx.wf(),
            final(self).ctx.user.release_queue@ == Seq::<usize>::empty(),
            final(self).ctx.handles@.len() == old(self).ctx.handles@.len(),
            forall|i: int|
                0 <= i < old(self).ctx.handles@.len() ==> (#[trigger] final(self).ctx.handles@[i]).target
                    == old(self).ctx.handles@[i].target,
            forall|i: int|
                0 <= i < old(self).ctx.handles@.len() ==> (#[trigger] final(self).ctx.handles@[i]).alive
                    == (old(self).ctx.handles@[i].alive && !(exists|j: int|
                    0 <= j < old(self).ctx.user.release_queue@.len() && old(self).ctx.user.release_queue@[j] as int == i)),
            final(self).ctx.slots == old(self).ctx.slots,
            final(self).ctx.lists == old(self).ctx.lists,
            final(self).ctx.cells == old(self).ctx.cells,
            final(self).ctx.modules == old(self).ctx.modules,
            final(self).ctx.user.foreign == old(self).ctx.user.foreign,
            final(self).ctx.user.errors == old(self).ctx.user.errors,
            final(self).ctx.user.output == old(self).ctx.user.output,
    {
        let n = self.ctx.user.release_queue.len();
        let mut k: usize = 0;
        while k < n
            invariant
                k <= n,
                self.ctx.user.release_queue == old(self).ctx.user.release_queue,
                self.ctx.handles@.len() == old(self).ctx.handles@.len(),
                forall|i: int|
                    0 <= i < self.ctx.handles@.len() ==> (#[trigger] self.ctx.handles@[i]).target
                        == old(self).ctx.handles@[i].target,
                forall|i: int|
                    0 <= i < self.ctx.handles@.len() ==> (#[trigger] self.ctx.handles@[i]).alive
                        == (old(self).ctx.handles@[i].alive && !(exists|j: int|
                        0 <= j < k && old(self).ctx.user.release_queue@[j] as int == i)),
                self.ctx.slots == old(self).ctx.slots,
                self.ctx.lists == old(self).ctx.lists,
                self.ctx.cells == old(self).ctx.cells,
                self.ctx.modules == old(self).ctx.modules,
                self.ctx.user.foreign == old(self).ctx.user.foreign,
                self.ctx.user.errors == old(self).ctx.user.errors,
                self.ctx.user.output == old(self).ctx.user.output,
            decreases n - k,
        {
            let h = self.ctx.user.release_queue[k];
            let t = self.ctx.handles[h].target.clone();
            self.ctx.handles.set(h, HandleEntry { alive: false, target: t });
            proof {
                assert forall|i: int|
                    0 <= i < self.ctx.handles@.len() implies (#[trigger] self.ctx.handles@[i]).alive
                    == (old(self).ctx.handles@[i].alive && !(exists|j: int|
                    0 <= j < k + 1 && old(self).ctx.user.release_queue@[j] as int == i)) by {
                    if i == h {
                        assert(old(self).ctx.user.release_queue@[k as int] as int == i);
                    } else {
                        assert(forall|j: int|
                            0 <= j < k + 1 && old(self).ctx.user.release_queue@[j] as int == i
                                ==> j < k);
                    }
                }
            }
            k += 1;
        }
        self.ctx.user.release_queue = Vec::new();
    }

    /// Run one source text through the black-box interpreter and shape the
    /// outcome.
    ///
    /// The events the interpreter's callbacks recorded are queued, a
    /// successful run's definitions become the module's top-level
    /// variables, the queue is drained into a structured result, and the
    /// deferred release queue is serviced: the end of an interpret call is
    /// a maintenance checkpoint.
    #[verifier::loop_isolation(false)]
    pub fn interpret(&mut self, module: &str, outcome: InterpretOutcome) -> (r: WrenResult<()>)
        requires
            old(self).ctx.wf(),
            events_consistent(outcome.code, old(self).ctx.user.errors@ + outcome.events@),
            forall|i: int|
                0 <= i < outcome.defs@.len() ==> old(self).ctx.value_ok(
                    (#[trigger] outcome.defs@[i]).value,
                ),
        ensures
            final(self).ctx.wf(),
            final(self).ctx.user.errors@ == Seq::<WrenVmError>::empty(),
            final(self).ctx.user.release_queue@ == Seq::<usize>::empty(),
            ({
                let evs = old(self).ctx.user.errors@ + outcome.events@;
                match outcome.code {
                    WrenInterpretResult::Success => if evs.len() == 0 {
                        r == Ok::<(), WrenError>(())
                    } else {
                        r == Err::<(), WrenError>(WrenError::ResultQueueMismatch)
                    },
                    WrenInterpretResult::CompileError => if evs.len() == 0 {
                        r == Err::<(), WrenError>(WrenError::ErrorAbsent(outcome.code))
                    } else {
                        r matches Err(WrenError::CompileError(ds)) && ds@ == compile_diags(evs)
                    },
                    WrenInterpretResult::RuntimeError => if evs.len() == 0 {
                        r == Err::<(), WrenError>(WrenError::ErrorAbsent(outcome.code))
                    } else {
                        r matches Err(WrenError::RuntimeError { message, foreign, stack })
                            && message@ == runtime_message(evs) && foreign == first_foreign(evs)
                            && stack@ == stack_frames(evs)
                    },
                }
            }),
            // A successful run's definitions are visible, newest winning;
            // everything else keeps its value.
            outcome.code is Success ==> forall|n: Seq<char>|
                #[trigger] lookup_var(final(self).ctx.modules@, module@, n) == (
                match defs_lookup(outcome.defs@, n) {
                    Some(v) => Some(v),
                    None => lookup_var(old(self).ctx.modules@, module@, n),
                }),
            outcome.code is Success ==> forall|m2: Seq<char>, n2: Seq<char>|
                m2 != module@ ==> #[trigger] lookup_var(final(self).ctx.modules@, m2, n2)
                    == lookup_var(old(self).ctx.modules@, m2, n2),
            outcome.code is Success ==> find_module(final(self).ctx.modules@, module@) >= 0,
            // A successful run brings no module but the interpreted one
            // into existence.
            outcome.code is Success ==> forall|m2: Seq<char>|
                #[trigger] find_module(final(self).ctx.modules@, m2) >= 0 ==> find_module(
                    old(self).ctx.modules@,
                    m2,
                ) >= 0 || m2 == module@,
            !(outcome.code is Success) ==> final(self).ctx.modules == old(self).ctx.modules,
            final(self).ctx.slots == old(self).ctx.slots,
            final(self).ctx.lists == old(self).ctx.lists,
            final(self).ctx.cells == old(self).ctx.cells,
            final(self).ctx.handles@.len() == old(self).ctx.handles@.len(),
            final(self).ctx.user.foreign == old(self).ctx.user.foreign,
            final(self).ctx.user.output == old(self).ctx.user.output,
    {
        let InterpretOutcome { code, mut events, defs } = outcome;
        let ghost olddefs = defs@;
        self.ctx.user.errors.append(&mut events);
        if let WrenInterpretResult::Success = code {
            let ghost pre_mods = self.ctx.modules@;
            self.ctx.ensure_module(module);
            proof {
                assert(pre_mods == old(self).ctx.modules@);
                assert forall|m2: Seq<char>|
                    #[trigger] find_module(self.ctx.modules@, m2) >= 0 implies find_module(
                    old(self).ctx.modules@,
                    m2,
                ) >= 0 || m2 == module@ by {
                    assert(find_module(self.ctx.modules@, m2) >= 0 ==> find_module(pre_mods, m2)
                        >= 0 || m2 == module@);
                }
            }
            let mut k: usize = 0;
            let n = defs.len();
            while k < n
                invariant
                    k <= n,
                    find_module(self.ctx.modules@, module@) >= 0,
                    forall|m2: Seq<char>|
                        #[trigger] find_module(self.ctx.modules@, m2) >= 0 ==> find_module(
                            old(self).ctx.modules@,
                            m2,
                        ) >= 0 || m2 == module@,
                    n == olddefs.len(),
                    defs@ == olddefs,
                    self.ctx.wf(),
                    forall|nm: Seq<char>|
                        #[trigger] lookup_var(self.ctx.modules@, module@, nm) == (
                        match defs_lookup(olddefs.subrange(0, k as int), nm) {
                            Some(v) => Some(v),
                            None => lookup_var(old(self).ctx.modules@, module@, nm),
                        }),
                    forall|m2: Seq<char>, n2: Seq<char>|
                        m2 != module@ ==> #[trigger] lookup_var(self.ctx.modules@, m2, n2)
                            == lookup_var(old(self).ctx.modules@, m2, n2),
                    self.ctx.slots == old(self).ctx.slots,
                    self.ctx.lists == old(self).ctx.lists,
                    self.ctx.cells == old(self).ctx.cells,
                    self.ctx.handles == old(self).ctx.handles,
                    self.ctx.user.foreign == old(self).ctx.user.foreign,
                    self.ctx.user.errors@ == old(self).ctx.user.errors@ + outcome.events@,
                    self.ctx.user.release_queue == old(self).ctx.user.release_queue,
                    self.ctx.user.output == old(self).ctx.user.output,
                decreases n - k,
            {
                let ghost premods = self.ctx.modules@;
                let value = defs[k].value.clone();
                self.ctx.set_var(module, defs[k].name.as_str(), value);
                proof {
                    assert(olddefs.subrange(0, k + 1).drop_last() =~= olddefs.subrange(
                        0,
                        k as int,
                    ));
                    assert(olddefs.subrange(0, k + 1).last() == olddefs[k as int]);
                    assert forall|nm: Seq<char>|
                        #[trigger] lookup_var(self.ctx.modules@, module@, nm) == (
                        match defs_lookup(olddefs.subrange(0, k + 1), nm) {
                            Some(v) => Some(v),
                            None => lookup_var(old(self).ctx.modules@, module@, nm),
                        }) by {
                        if nm == olddefs[k as int].name@ {
                        } else {
                            assert(lookup_var(self.ctx.modules@, module@, nm) == lookup_var(
                                premods,
                                module@,
                                nm,
                            ));
                        }
                    }
                }
                k += 1;
            }
            proof {
                assert(olddefs.subrange(0, n as int) =~= olddefs);
            }
        }
        let r = self.ctx.take_errors(code);
        self.maintain();
        r
    }
}

/// Configuration of a session before it is built: the foreign bindings
/// registered module by module.
#[derive(Debug)]
pub struct WrenBuilder {
    pub foreign: ForeignBindings,
}

impl WrenBuilder {
    pub fn new() -> (r: Self)
        ensures
            r.foreign.classes@.len() == 0,
            r.foreign.methods@.len() == 0,
            r.foreign.reverse@.len() == 0,
    {
        WrenBuilder { foreign: ForeignBindings::new() }
    }

    /// Replace the foreign bindings with the given registry.
    pub fn with_foreign(self, foreign: ForeignBindings) -> (r: Self)
        ensures
            r.foreign == foreign,
    {
        WrenBuilder { foreign }
    }

    /// Open a module scope for registering bindings; close it with
    /// [`ModuleBuilder::done`] to get the builder back.
    pub fn with_module(self, module: &str) -> (r: ModuleBuilder)
        ensures
            r.module@ == module@,
            r.inner == self,
    {
        ModuleBuilder { module: name_string(module), inner: self }
    }

    /// Build the session: fresh state, holding the registered bindings.
    pub fn build(self) -> (vm: WrenVm)
        ensures
            vm.ctx.wf(),
            vm.ctx.slots@.len() == 0,
            vm.ctx.lists@.len() == 0,
            vm.ctx.cells@.len() == 0,
            vm.ctx.handles@.len() == 0,
            vm.ctx.modules@.len() == 0,
            vm.ctx.user.errors@.len() == 0,
            vm.ctx.user.release_queue@.len() == 0,
            vm.ctx.user.output@.len() == 0,
            vm.ctx.user.foreign == self.foreign,
    {
        WrenVm {
            ctx: WrenContext {
                slots: Vec::new(),
                lists: Vec::new(),
                cells: Vec::new(),
                handles: Vec::new(),
                modules: Vec::new(),
                user: UserData {
                    foreign: self.foreign,
                    errors: Vec::new(),
                    release_queue: Vec::new(),
                    output: Vec::new(),
                },
            },
        }
    }
}

/// Registers the foreign bindings of one module.
#[derive(Debug)]
pub struct ModuleBuilder {
    pub module: String,
    pub inner: WrenBuilder,
}

impl ModuleBuilder {
    /// Let a host type register its own class and method bindings.
    pub fn register<T: crate::class::WrenForeignClass>(&mut self) {
        T::register(self);
    }

    /// Register a class's allocate and finalize pair under this module.
    pub fn add_class_binding(&mut self, class: &str, binding: crate::foreign::ForeignClass)
        ensures
            final(self).module == old(self).module,
            final(self).inner.foreign.classes@.len() == old(self).inner.foreign.classes@.len() + 1,
            final(self).inner.foreign.classes@.drop_last() == old(self).inner.foreign.classes@,
            final(self).inner.foreign.classes@.last().0.module@ == old(self).module@,
            final(self).inner.foreign.classes@.last().0.class@ == class@,
            final(self).inner.foreign.classes@.last().1 == binding,
            final(self).inner.foreign.methods == old(self).inner.foreign.methods,
            final(self).inner.foreign.reverse == old(self).inner.foreign.reverse,
    {
        let key = crate::foreign::ForeignClassKey {
            module: self.module.clone(),
            class: name_string(class),
        };
        self.inner.foreign.add_class(key, binding);
    }

    /// Register the reverse lookup from a host type tag to this module's
    /// class.
    pub fn add_reverse_class_lookup(&mut self, tag: u64, class: &str)
        ensures
            final(self).module == old(self).module,
            final(self).inner.foreign.reverse@.len() == old(self).inner.foreign.reverse@.len() + 1,
            final(self).inner.foreign.reverse@.drop_last() == old(self).inner.foreign.reverse@,
            final(self).inner.foreign.reverse@.last().0 == tag,
            final(self).inner.foreign.reverse@.last().1.module@ == old(self).module@,
            final(self).inner.foreign.reverse@.last().1.class@ == class@,
            final(self).inner.foreign.classes == old(self).inner.foreign.classes,
            final(self).inner.foreign.methods == old(self).inner.foreign.methods,
    {
        let key = crate::foreign::ForeignClassKey {
            module: self.module.clone(),
            class: name_string(class),
        };
        self.inner.foreign.add_reverse(tag, key);
    }

    /// Register a method trampoline under this module; the binding's own
    /// signature and staticness complete the key.
    pub fn add_method_binding(&mut self, class: &str, binding: crate::foreign::ForeignMethod)
        ensures
            final(self).module == old(self).module,
            final(self).inner.foreign.methods@.len() == old(self).inner.foreign.methods@.len() + 1,
            final(self).inner.foreign.methods@.drop_last() == old(self).inner.foreign.methods@,
            final(self).inner.foreign.methods@.last().0.module@ == old(self).module@,
            final(self).inner.foreign.methods@.last().0.class@ == class@,
            final(self).inner.foreign.methods@.last().0.sig@ == binding.sig@,
            final(self).inner.foreign.methods@.last().0.is_static == binding.is_static,
            final(self).inner.foreign.methods@.last().1 == binding,
            final(self).inner.foreign.classes == old(self).inner.foreign.classes,
            final(self).inner.foreign.reverse == old(self).inner.foreign.reverse,
    {
        let key = crate::foreign::ForeignMethodKey {
            module: self.module.clone(),
            class: name_string(class),
            sig: binding.sig.clone(),
            is_static: binding.is_static,
        };
        self.inner.foreign.add_method(key, binding);
    }

    /// Close the module scope.
    pub fn done(self) -> (r: WrenBuilder)
        ensures
            r == self.inner,
    {
        self.inner
    }
}

} // verus!
