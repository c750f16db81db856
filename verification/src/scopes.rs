//! The code generator's two stacks: the scoped symbol table, which maps a
//! variable's name to its storage and source type, and the stack of loops
//! that `break` and `continue` refer to.
use crate::ast::Type;
use vstd::prelude::*;

verus! {

/// What a name is bound to: the storage that holds the variable and its
/// source type.
pub struct Binding<P> {
    pub ptr: P,
    pub ty: Type,
}

pub struct Entry<P> {
    pub name: String,
    pub binding: Binding<P>,
}

/// The bindings that a list of entries holds, a later entry overriding an
/// earlier one with the same name.
pub open spec fn entries_map<P>(s: Seq<Entry<P>>) -> Map<Seq<char>, Binding<P>>
    decreases s.len(),
{
    if s.len() == 0 {
        Map::empty()
    } else {
        entries_map(s.drop_last()).insert(s.last().name@, s.last().binding)
    }
}

pub open spec fn names_unique<P>(s: Seq<Entry<P>>) -> bool {
    forall|i: int, j: int| 0 <= i < j < s.len() ==> s[i].name@ != s[j].name@
}

/// The binding of `name` in the innermost scope that binds it.
pub open spec fn lookup_in<P>(scopes: Seq<Map<Seq<char>, Binding<P>>>, name: Seq<char>) -> Option<
    Binding<P>,
>
    decreases scopes.len(),
{
    if scopes.len() == 0 {
        None
    } else if scopes.last().contains_key(name) {
        Some(scopes.last()[name])
    } else {
        lookup_in(scopes.drop_last(), name)
    }
}

/// The scopes with `name` bound to `b` in the innermost one.
pub open spec fn bind_innermost<P>(
    scopes: Seq<Map<Seq<char>, Binding<P>>>,
    name: Seq<char>,
    b: Binding<P>,
) -> Seq<Map<Seq<char>, Binding<P>>> {
    scopes.update(scopes.len() - 1, scopes.last().insert(name, b))
}

/// A stack of scopes, innermost last. Each scope binds a name at most once.
pub struct SymbolTable<P> {
    scopes: Vec<Vec<Entry<P>>>,
}

proof fn lemma_entries_map_found<P>(s: Seq<Entry<P>>, i: int)
    requires
        names_unique(s),
        0 <= i < s.len(),
    ensures
        entries_map(s).contains_key(s[i].name@),
        entries_map(s)[s[i].name@] == s[i].binding,
    decreases s.len(),
{
    if i < s.len() - 1 {
        lemma_entries_map_found(s.drop_last(), i);
    }
}

proof fn lemma_entries_map_absent<P>(s: Seq<Entry<P>>, name: Seq<char>)
    requires
        forall|i: int| 0 <= i < s.len() ==> s[i].name@ != name,
    ensures
        !entries_map(s).contains_key(name),
    decreases s.len(),
{
    if s.len() > 0 {
        lemma_entries_map_absent(s.drop_last(), name);
    }
}

proof fn lemma_entries_map_update<P>(s: Seq<Entry<P>>, i: int, e: Entry<P>)
    requires
        names_unique(s),
        0 <= i < s.len(),
        e.name@ == s[i].name@,
    ensures
        entries_map(s.update(i, e)) == entries_map(s).insert(e.name@, e.binding),
        names_unique(s.update(i, e)),
    decreases s.len(),
{
    let t = s.update(i, e);
    if i == s.len() - 1 {
        assert(t.drop_last() == s.drop_last());
        lemma_entries_map_absent(s.drop_last(), e.name@);
        assert(entries_map(t) =~= entries_map(s).insert(e.name@, e.binding));
    } else {
        assert(t.drop_last() == s.drop_last().update(i, e));
        lemma_entries_map_update(s.drop_last(), i, e);
        assert(entries_map(t) =~= entries_map(s).insert(e.name@, e.binding));
    }
}

/// The position in `scope` of the entry named `name`, if there is one.
fn find_in_scope<P>(scope: &Vec<Entry<P>>, name: &String) -> (r: Option<usize>)
    ensures
        match r {
            Some(j) => j < scope@.len() && scope@[j as int].name@ == name@,
            None => forall|k: int| 0 <= k < scope@.len() ==> scope@[k].name@ != name@,
        },
{
    let mut j: usize = 0;
    while j < scope.len()
        invariant
            j <= scope@.len(),
            forall|k: int| 0 <= k < j ==> scope@[k].name@ != name@,
        decreases scope.len() - j,
    {
        if scope[j].name == *name {
            return Some(j);
        }
        j += 1;
    }
    None
}

impl<P: Copy> SymbolTable<P> {
    pub closed spec fn wf(&self) -> bool {
        forall|i: int| 0 <= i < self.scopes@.len() ==> names_unique(#[trigger] self.scopes@[i]@)
    }

    proof fn lemma_view_index(&self, i: int)
        requires
            0 <= i < self.scopes@.len(),
        ensures
            self@.len() == self.scopes@.len(),
            self@[i] == entries_map(self.scopes@[i]@),
    {
    }

    /// An empty table, with no scope open.
    pub fn new() -> (t: Self)
        ensures
            t.wf(),
            t@ == Seq::<Map<Seq<char>, Binding<P>>>::empty(),
    {
        let t = SymbolTable { scopes: Vec::new() };
        assert(t@ =~= Seq::<Map<Seq<char>, Binding<P>>>::empty());
        t
    }

    /// The number of open scopes.
    pub fn depth(&self) -> (n: usize)
        ensures
            n == self@.len(),
    {
        self.scopes.len()
    }

    /// Opens a new, empty innermost scope.
    pub fn push_scope(&mut self)
        requires
            old(self).wf(),
        ensures
            final(self).wf(),
            final(self)@ == old(self)@.push(Map::empty()),
    {
        self.scopes.push(Vec::new());
        assert(entries_map(Seq::<Entry<P>>::empty()) == Map::<Seq<char>, Binding<P>>::empty());
        assert(self@ =~= old(self)@.push(Map::empty()));
    }

    /// Closes the innermost scope and drops its bindings.
    pub fn pop_scope(&mut self)
        requires
            old(self).wf(),
            old(self)@.len() > 0,
        ensures
            final(self).wf(),
            final(self)@ == old(self)@.drop_last(),
    {
        let _ = self.scopes.pop();
        assert(self@ =~= old(self)@.drop_last());
    }

    /// The binding of `name` in the innermost scope that binds it.
    pub fn lookup(&self, name: &String) -> (r: Option<Binding<P>>)
        requires
            self.wf(),
        ensures
            r == lookup_in(self@, name@),
    {
        let mut i = self.scopes.len();
        assert(self@.subrange(0, i as int) =~= self@);
        while i > 0
            invariant
                self.wf(),
                i <= self.scopes@.len(),
                lookup_in(self@, name@) == lookup_in(self@.subrange(0, i as int), name@),
            decreases i,
        {
            let scope = &self.scopes[i - 1];
            let ghost pre = self@.subrange(0, i as int);
            proof {
                self.lemma_view_index(i - 1);
                assert(pre.last() == entries_map(scope@));
                assert(pre.drop_last() =~= self@.subrange(0, i - 1));
            }
            match find_in_scope(scope, name) {
                Some(j) => {
                    proof {
                        assert(names_unique(self.scopes@[i - 1]@));
                        lemma_entries_map_found(scope@, j as int);
                    }
                    let b = &scope[j].binding;
                    return Some(Binding { ptr: b.ptr, ty: b.ty.duplicate() });
                },
                None => {
                    proof {
                        lemma_entries_map_absent(scope@, name@);
                    }
                },
            }
            i -= 1;
        }
        None
    }

    /// Whether the innermost scope binds `name`.
    pub fn binds_innermost(&self, name: &String) -> (r: bool)
        requires
            self.wf(),
            self@.len() > 0,
        ensures
            r == self@.last().contains_key(name@),
    {
        let last = self.scopes.len() - 1;
        let scope = &self.scopes[last];
        proof {
            self.lemma_view_index(last as int);
            assert(names_unique(self.scopes@[last as int]@));
        }
        match find_in_scope(scope, name) {
            Some(j) => {
                proof {
                    lemma_entries_map_found(scope@, j as int);
                }
                true
            },
            None => {
                proof {
                    lemma_entries_map_absent(scope@, name@);
                }
                false
            },
        }
    }

    /// Binds `name` to `b` in the innermost scope, replacing a binding of
    /// the same name there.
    pub fn declare(&mut self, name: String, b: Binding<P>)
        requires
            old(self).wf(),
            old(self)@.len() > 0,
        ensures
            final(self).wf(),
            final(self)@ == bind_innermost(old(self)@, name@, b),
    {
        let ghost old_view = self@;
        let ghost n = name@;
        let ghost last = self.scopes@.len() - 1;
        proof {
            self.lemma_view_index(last);
            assert(names_unique(self.scopes@[last]@));
        }
        let mut scope = self.scopes.pop().unwrap();
        let ghost old_scope = scope@;
        let found = find_in_scope(&scope, &name);
        let e = Entry { name, binding: b };
        match found {
            Some(j) => {
                proof {
                    lemma_entries_map_update(old_scope, j as int, e);
                }
                scope.set(j, e);
            },
            None => {
                proof {
                    lemma_entries_map_absent(old_scope, n);
                    assert(old_scope.push(e).drop_last() == old_scope);
                }
                scope.push(e);
            },
        }
        self.scopes.push(scope);
        assert(self@ =~= bind_innermost(old_view, n, b));
    }

    /// Binds `name` to `b` in the innermost scope unless that scope already
    /// binds it; an existing binding is kept.
    pub fn declare_if_absent(&mut self, name: String, b: Binding<P>)
        requires
            old(self).wf(),
            old(self)@.len() > 0,
        ensures
            final(self).wf(),
            final(self)@ == if old(self)@.last().contains_key(name@) {
                old(self)@
            } else {
                bind_innermost(old(self)@, name@, b)
            },
    {
        if !self.binds_innermost(&name) {
            self.declare(name, b);
        }
    }
}

impl<P: Copy> View for SymbolTable<P> {
    type V = Seq<Map<Seq<char>, Binding<P>>>;

    /// The scopes, outermost first, each as the map from names to bindings.
    closed spec fn view(&self) -> Self::V {
        Seq::new(self.scopes@.len(), |i: int| entries_map(self.scopes@[i]@))
    }
}

/// Opening a scope and closing it again gives back the scopes there were.
pub proof fn law_push_then_pop_scope<P>(scopes: Seq<Map<Seq<char>, Binding<P>>>)
    ensures
        scopes.push(Map::empty()).drop_last() == scopes,
{
    assert(scopes.push(Map::empty()).drop_last() =~= scopes);
}

/// A newly opened scope hides nothing: every name resolves as it did.
pub proof fn law_new_scope_keeps_lookups<P>(
    scopes: Seq<Map<Seq<char>, Binding<P>>>,
    name: Seq<char>,
)
    ensures
        lookup_in(scopes.push(Map::empty()), name) == lookup_in(scopes, name),
{
    assert(scopes.push(Map::empty()).drop_last() =~= scopes);
}

/// After `name` is bound in the innermost scope, looking it up gives that
/// binding, and every other name resolves as it did.
pub proof fn law_lookup_after_declare<P>(
    scopes: Seq<Map<Seq<char>, Binding<P>>>,
    name: Seq<char>,
    b: Binding<P>,
    other: Seq<char>,
)
    requires
        scopes.len() > 0,
    ensures
        lookup_in(bind_innermost(scopes, name, b), name) == Some(b),
        other != name ==> lookup_in(bind_innermost(scopes, name, b), other) == lookup_in(
            scopes,
            other,
        ),
{
    let t = bind_innermost(scopes, name, b);
    assert(t.drop_last() =~= scopes.drop_last());
}

/// A binding made in an inner scope shadows an outer one only until that
/// scope is closed: closing it gives back the scopes there were before it
/// was opened.
pub proof fn law_shadowing_ends_with_scope<P>(
    scopes: Seq<Map<Seq<char>, Binding<P>>>,
    name: Seq<char>,
    b: Binding<P>,
)
    ensures
        lookup_in(bind_innermost(scopes.push(Map::empty()), name, b), name) == Some(b),
        bind_innermost(scopes.push(Map::empty()), name, b).drop_last() == scopes,
{
    let inner = scopes.push(Map::empty());
    law_lookup_after_declare(inner, name, b, name);
    assert(bind_innermost(inner, name, b).drop_last() =~= scopes);
}

/// Where `continue` and `break` jump to inside a loop.
#[derive(Clone, Copy)]
pub struct LoopContext<B> {
    pub continue_block: B,
    pub break_block: B,
}

/// The loops that enclose the code being generated, innermost last.
pub struct LoopStack<B> {
    loops: Vec<LoopContext<B>>,
}

impl<B: Copy> LoopStack<B> {
    pub fn new() -> (s: Self)
        ensures
            s@ == Seq::<LoopContext<B>>::empty(),
    {
        LoopStack { loops: Vec::new() }
    }

    pub fn depth(&self) -> (n: usize)
        ensures
            n == self@.len(),
    {
        self.loops.len()
    }

    /// Enters a loop.
    pub fn push_loop(&mut self, continue_block: B, break_block: B)
        ensures
            final(self)@ == old(self)@.push(LoopContext { continue_block, break_block }),
    {
        self.loops.push(LoopContext { continue_block, break_block });
    }

    /// Leaves the innermost loop.
    pub fn pop_loop(&mut self)
        requires
            old(self)@.len() > 0,
        ensures
            final(self)@ == old(self)@.drop_last(),
    {
        let _ = self.loops.pop();
    }

    /// The innermost loop.
    pub fn current_loop(&self) -> (l: LoopContext<B>)
        requires
            self@.len() > 0,
        ensures
            l == self@.last(),
    {
        self.loops[self.loops.len() - 1]
    }
}

/// The loop entered last is the current loop, and leaving it gives back the
/// loops there were.
pub proof fn law_push_then_pop_loop<B>(loops: Seq<LoopContext<B>>, l: LoopContext<B>)
    ensures
        loops.push(l).last() == l,
        loops.push(l).drop_last() == loops,
{
    assert(loops.push(l).drop_last() =~= loops);
}

impl<B: Copy> View for LoopStack<B> {
    type V = Seq<LoopContext<B>>;

    closed spec fn view(&self) -> Self::V {
        self.loops@
    }
}

} // verus!
