use vstd::prelude::*;

use crate::cstr::entries_view;

verus! {

/// One recorded change: a key and its new value, or `None` for a removal.
pub type VarView = (Seq<u8>, Option<Seq<u8>>);

/// The view of one recorded change.
pub open spec fn var_view(e: (Vec<u8>, Option<Vec<u8>>)) -> VarView {
    (
        e.0@,
        match e.1 {
            Some(v) => Some(v@),
            None => None,
        },
    )
}

/// Whether a list of changes names `key`.
pub open spec fn names_key(vars: Seq<VarView>, key: Seq<u8>) -> bool {
    exists|i: int| 0 <= i < vars.len() && (#[trigger] vars[i]).0 == key
}

/// Whether no key is named twice.
pub open spec fn keys_unique(vars: Seq<VarView>) -> bool {
    forall|i: int, j: int| 0 <= i < j < vars.len() ==> (#[trigger] vars[i]).0 != (#[trigger] vars[j]).0
}

/// The changes with those on `key` left out.
pub open spec fn spec_without(vars: Seq<VarView>, key: Seq<u8>) -> Seq<VarView>
    decreases vars.len(),
{
    if vars.len() == 0 {
        Seq::empty()
    } else {
        let prev = spec_without(vars.drop_last(), key);
        if vars.last().0 == key {
            prev
        } else {
            prev.push(vars.last())
        }
    }
}

/// The inherited entries whose key no change names, in order.
pub open spec fn spec_kept(inherited: Seq<(Vec<u8>, Vec<u8>)>, vars: Seq<VarView>) -> Seq<
    (Seq<u8>, Seq<u8>),
>
    decreases inherited.len(),
{
    if inherited.len() == 0 {
        Seq::empty()
    } else {
        let prev = spec_kept(inherited.drop_last(), vars);
        let e = inherited.last();
        if names_key(vars, e.0@) {
            prev
        } else {
            prev.push((e.0@, e.1@))
        }
    }
}

/// The changes that set a value, as entries, in order.
pub open spec fn spec_assigned(vars: Seq<VarView>) -> Seq<(Seq<u8>, Seq<u8>)>
    decreases vars.len(),
{
    if vars.len() == 0 {
        Seq::empty()
    } else {
        let prev = spec_assigned(vars.drop_last());
        match vars.last().1 {
            Some(v) => prev.push((vars.last().0, v)),
            None => prev,
        }
    }
}

/// The bytes `PATH`.
pub open spec fn path_key() -> Seq<u8> {
    seq![80u8, 65u8, 84u8, 72u8]
}

/// The changes after setting each entry of `entries` in turn.
pub open spec fn spec_set_all(vars: Seq<VarView>, entries: Seq<(Vec<u8>, Vec<u8>)>) -> Seq<VarView>
    decreases entries.len(),
{
    if entries.len() == 0 {
        vars
    } else {
        let e = entries.last();
        spec_without(spec_set_all(vars, entries.drop_last()), e.0@).push((e.0@, Some(e.1@)))
    }
}

/// The environment a child gets when something was changed.
pub open spec fn spec_captured(env: CommandEnv, inherited: Seq<(Vec<u8>, Vec<u8>)>) -> Seq<
    (Seq<u8>, Seq<u8>),
> {
    (if env.spec_clear() {
        Seq::empty()
    } else {
        spec_kept(inherited, env.spec_vars())
    }) + spec_assigned(env.spec_vars())
}

/// Whether the child inherits the environment unchanged.
pub open spec fn spec_unchanged(env: CommandEnv) -> bool {
    !env.spec_clear() && env.spec_vars().len() == 0
}

/// Changes to the environment a child inherits: overrides, removals and a clear-all.
pub struct CommandEnv {
    clear: bool,
    saw_path: bool,
    vars: Vec<(Vec<u8>, Option<Vec<u8>>)>,
}

/// Whether two byte strings are equal.
pub fn bytes_eq(a: &[u8], b: &[u8]) -> (r: bool)
    ensures
        r == (a@ == b@),
{
    if a.len() != b.len() {
        return false;
    }
    let mut i: usize = 0;
    while i < a.len()
        invariant
            a@.len() == b@.len(),
            i <= a@.len(),
            forall|j: int| 0 <= j < i ==> a@[j] == b@[j],
        decreases a.len() - i,
    {
        if a[i] != b[i] {
            return false;
        }
        i = i + 1;
    }
    assert(a@ =~= b@);
    true
}

fn copy_bytes(s: &[u8]) -> (r: Vec<u8>)
    ensures
        r@ == s@,
{
    let mut r: Vec<u8> = Vec::new();
    let mut i: usize = 0;
    while i < s.len()
        invariant
            i <= s@.len(),
            r@ == s@.subrange(0, i as int),
        decreases s.len() - i,
    {
        r.push(s[i]);
        i = i + 1;
        assert(r@ =~= s@.subrange(0, i as int));
    }
    assert(s@.subrange(0, s@.len() as int) =~= s@);
    r
}

fn copy_var(e: &(Vec<u8>, Option<Vec<u8>>)) -> (r: (Vec<u8>, Option<Vec<u8>>))
    ensures
        var_view(r) == var_view(*e),
{
    let k = copy_bytes(e.0.as_slice());
    match &e.1 {
        Some(v) => (k, Some(copy_bytes(v.as_slice()))),
        None => (k, None),
    }
}

proof fn lemma_without_drops_key(vars: Seq<VarView>, key: Seq<u8>)
    requires
        keys_unique(vars),
    ensures
        !names_key(spec_without(vars, key), key),
        keys_unique(spec_without(vars, key)),
        forall|k: Seq<u8>| k != key ==> (names_key(spec_without(vars, key), k) <==> names_key(vars, k)),
    decreases vars.len(),
{
    if vars.len() > 0 {
        let p = vars.drop_last();
        assert(keys_unique(p)) by {
            assert forall|i: int, j: int| 0 <= i < j < p.len() implies (#[trigger] p[i]).0 != (#[trigger] p[j]).0 by {
                assert(p[i] == vars[i] && p[j] == vars[j]);
            }
        }
        lemma_without_drops_key(p, key);
        let w = spec_without(p, key);
        let l = vars.last();
        let s0 = spec_without(vars, key);
        assert forall|k: Seq<u8>| k != key implies (names_key(s0, k) <==> names_key(vars, k)) by {
            if names_key(vars, k) {
                let i = choose|i: int| 0 <= i < vars.len() && (#[trigger] vars[i]).0 == k;
                if i < vars.len() - 1 {
                    assert(p[i] == vars[i]);
                    assert(names_key(p, k));
                    assert(names_key(w, k));
                    let i2 = choose|i2: int| 0 <= i2 < w.len() && (#[trigger] w[i2]).0 == k;
                    assert(s0[i2] == w[i2]);
                } else {
                    assert(s0[w.len() as int] == l);
                }
            }
            if names_key(s0, k) {
                let i = choose|i: int| 0 <= i < s0.len() && (#[trigger] s0[i]).0 == k;
                if i < w.len() {
                    assert(s0[i] == w[i]);
                    assert(names_key(w, k));
                    assert(names_key(p, k));
                    let j = choose|j: int| 0 <= j < p.len() && (#[trigger] p[j]).0 == k;
                    assert(vars[j] == p[j]);
                } else {
                    assert(vars[vars.len() - 1] == l);
                }
            }
        }
        if l.0 != key {
            let s = spec_without(vars, key);
            assert(!names_key(p, l.0)) by {
                if names_key(p, l.0) {
                    let j = choose|j: int| 0 <= j < p.len() && (#[trigger] p[j]).0 == l.0;
                    assert(vars[j] == p[j]);
                    assert(vars[vars.len() - 1] == l);
                }
            }
            assert(!names_key(w, l.0));
            assert(keys_unique(s)) by {
                assert forall|i: int, j: int| 0 <= i < j < s.len() implies (#[trigger] s[i]).0 != (#[trigger] s[j]).0 by {
                    if j < w.len() {
                        assert(s[i] == w[i] && s[j] == w[j]);
                    } else {
                        assert(s[i] == w[i]);
                        assert(s[j] == l);
                    }
                }
            }
            assert(!names_key(s, key)) by {
                if names_key(s, key) {
                    let i = choose|i: int| 0 <= i < s.len() && (#[trigger] s[i]).0 == key;
                    if i < w.len() {
                        assert(s[i] == w[i]);
                    }
                }
            }
        }
    }
}

impl CommandEnv {
    /// Whether every inherited variable is dropped.
    pub closed spec fn spec_clear(&self) -> bool {
        self.clear
    }

    /// Whether a change has touched `PATH`.
    pub closed spec fn spec_saw_path(&self) -> bool {
        self.saw_path
    }

    /// The recorded changes, in order.
    pub closed spec fn spec_vars(&self) -> Seq<VarView> {
        self.vars@.map_values(|e: (Vec<u8>, Option<Vec<u8>>)| var_view(e))
    }

    /// Keys are recorded once each.
    pub open spec fn wf(&self) -> bool {
        keys_unique(self.spec_vars())
    }

    /// No change: the child inherits the environment as it is.
    pub fn new() -> (r: CommandEnv)
        ensures
            r.wf(),
            !r.spec_clear(),
            !r.spec_saw_path(),
            r.spec_vars() == Seq::<VarView>::empty(),
    {
        let r = CommandEnv { clear: false, saw_path: false, vars: Vec::new() };
        assert(r.spec_vars() =~= Seq::<VarView>::empty());
        r
    }

    fn drop_key(&mut self, key: &[u8])
        requires
            old(self).wf(),
        ensures
            final(self).spec_vars() == spec_without(old(self).spec_vars(), key@),
            final(self).clear == old(self).clear,
            final(self).saw_path == old(self).saw_path,
            final(self).wf(),
    {
        let ghost vs = self.spec_vars();
        proof {
            lemma_without_drops_key(vs, key@);
        }
        let mut kept: Vec<(Vec<u8>, Option<Vec<u8>>)> = Vec::new();
        let mut i: usize = 0;
        while i < self.vars.len()
            invariant
                i <= vs.len(),
                vs == self.spec_vars(),
                self.vars@.len() == vs.len(),
                kept@.map_values(|e: (Vec<u8>, Option<Vec<u8>>)| var_view(e)) == spec_without(
                    vs.subrange(0, i as int),
                    key@,
                ),
            decreases self.vars.len() - i,
        {
            let ghost next = vs.subrange(0, i + 1 as int);
            assert(next.drop_last() =~= vs.subrange(0, i as int));
            assert(next.last() == var_view(self.vars@[i as int]));
            if !bytes_eq(self.vars[i].0.as_slice(), key) {
                let e = copy_var(&self.vars[i]);
                kept.push(e);
            }
            assert(kept@.map_values(|e: (Vec<u8>, Option<Vec<u8>>)| var_view(e)) =~= spec_without(next, key@));
            i = i + 1;
        }
        assert(vs.subrange(0, vs.len() as int) =~= vs);
        self.vars = kept;
    }

    /// Records that `key` is set to `val`, replacing an earlier change on `key`.
    pub fn set(&mut self, key: &[u8], val: &[u8])
        requires
            old(self).wf(),
        ensures
            final(self).wf(),
            final(self).spec_vars() == spec_without(old(self).spec_vars(), key@).push(
                (key@, Some(val@)),
            ),
            final(self).spec_clear() == old(self).spec_clear(),
            final(self).spec_saw_path() == (old(self).spec_saw_path() || key@ == path_key()),
    {
        self.note_path(key);
        proof {
            lemma_without_drops_key(self.spec_vars(), key@);
        }
        self.drop_key(key);
        let ghost w = self.spec_vars();
        self.vars.push((copy_bytes(key), Some(copy_bytes(val))));
        assert(self.spec_vars() =~= w.push((key@, Some(val@))));
        assert(self.spec_vars().drop_last() =~= w);
        proof {
            self.keep_unique(w, key@);
        }
    }

    /// Records that `key` is removed. After a clear-all there is nothing to remove,
    /// so only the earlier change on `key` is dropped.
    pub fn remove(&mut self, key: &[u8])
        requires
            old(self).wf(),
        ensures
            final(self).wf(),
            final(self).spec_vars() == if old(self).spec_clear() {
                spec_without(old(self).spec_vars(), key@)
            } else {
                spec_without(old(self).spec_vars(), key@).push((key@, None::<Seq<u8>>))
            },
            final(self).spec_clear() == old(self).spec_clear(),
            final(self).spec_saw_path() == (old(self).spec_saw_path() || key@ == path_key()),
    {
        self.note_path(key);
        proof {
            lemma_without_drops_key(self.spec_vars(), key@);
        }
        self.drop_key(key);
        if !self.clear {
            let ghost w = self.spec_vars();
            self.vars.push((copy_bytes(key), None));
            assert(self.spec_vars() =~= w.push((key@, None::<Seq<u8>>)));
            assert(self.spec_vars().drop_last() =~= w);
            proof {
                self.keep_unique(w, key@);
            }
        }
    }

    /// Records that no inherited variable is passed on; earlier changes are dropped.
    pub fn clear(&mut self)
        ensures
            final(self).wf(),
            final(self).spec_clear(),
            final(self).spec_saw_path(),
            final(self).spec_vars() == Seq::<VarView>::empty(),
    {
        self.clear = true;
        self.saw_path = true;
        self.vars = Vec::new();
        assert(self.spec_vars() =~= Seq::<VarView>::empty());
    }

    /// Whether the value of `PATH` the child sees may differ from the inherited one.
    pub fn have_changed_path(&self) -> (r: bool)
        ensures
            r == (self.spec_saw_path() || self.spec_clear()),
    {
        self.saw_path || self.clear
    }

    fn note_path(&mut self, key: &[u8])
        ensures
            final(self).saw_path == (old(self).saw_path || key@ == path_key()),
            final(self).clear == old(self).clear,
            final(self).vars == old(self).vars,
    {
        let path: [u8; 4] = [80u8, 65u8, 84u8, 72u8];
        assert(path@ =~= path_key());
        if bytes_eq(key, path.as_slice()) {
            self.saw_path = true;
        }
    }

    proof fn keep_unique(&self, w: Seq<VarView>, key: Seq<u8>)
        requires
            keys_unique(w),
            !names_key(w, key),
            self.spec_vars().len() == w.len() + 1,
            self.spec_vars().drop_last() == w,
            self.spec_vars().last().0 == key,
        ensures
            self.wf(),
    {
        let s = self.spec_vars();
        assert forall|i: int, j: int| 0 <= i < j < s.len() implies (#[trigger] s[i]).0 != (#[trigger] s[j]).0 by {
            assert(s[i] == w[i]);
            if j < w.len() {
                assert(s[j] == w[j]);
            }
        }
    }

    /// The environment a child gets, given the one this process has: `None` when
    /// nothing was changed (the child inherits), else the kept inherited entries
    /// followed by the values set, in order.
    pub fn capture_if_changed(&self, inherited: &Vec<(Vec<u8>, Vec<u8>)>) -> (r: Option<
        Vec<(Vec<u8>, Vec<u8>)>,
    >)
        ensures
            r is None <==> spec_unchanged(*self),
            r is Some ==> entries_view(r->Some_0@) == spec_captured(*self, inherited@),
    {
        if !self.clear && self.vars.len() == 0 {
            return None;
        }
        let ghost vs = self.spec_vars();
        let mut out: Vec<(Vec<u8>, Vec<u8>)> = Vec::new();
        if !self.clear {
            let mut i: usize = 0;
            while i < inherited.len()
                invariant
                    i <= inherited@.len(),
                    vs == self.spec_vars(),
                    entries_view(out@) == spec_kept(inherited@.subrange(0, i as int), vs),
                decreases inherited.len() - i,
            {
                let ghost next = inherited@.subrange(0, i + 1 as int);
                assert(next.drop_last() =~= inherited@.subrange(0, i as int));
                assert(next.last() == inherited@[i as int]);
                if !self.names(inherited[i].0.as_slice()) {
                    out.push((copy_bytes(inherited[i].0.as_slice()), copy_bytes(inherited[i].1.as_slice())));
                }
                assert(entries_view(out@) =~= spec_kept(next, vs));
                i = i + 1;
            }
            assert(inherited@.subrange(0, inherited@.len() as int) =~= inherited@);
        }
        let ghost base = entries_view(out@);
        let mut j: usize = 0;
        while j < self.vars.len()
            invariant
                j <= vs.len(),
                vs == self.spec_vars(),
                self.vars@.len() == vs.len(),
                entries_view(out@) == base + spec_assigned(vs.subrange(0, j as int)),
            decreases self.vars.len() - j,
        {
            let ghost next = vs.subrange(0, j + 1 as int);
            assert(next.drop_last() =~= vs.subrange(0, j as int));
            assert(next.last() == var_view(self.vars@[j as int]));
            let ghost before = entries_view(out@);
            assert(spec_assigned(next.drop_last()) == spec_assigned(vs.subrange(0, j as int)));
            match &self.vars[j].1 {
                Some(v) => {
                    assert(next.last().1 == Some(v@));
                    out.push((copy_bytes(self.vars[j].0.as_slice()), copy_bytes(v.as_slice())));
                    assert(entries_view(out@) =~= before.push((next.last().0, v@)));
                    assert(spec_assigned(next) == spec_assigned(vs.subrange(0, j as int)).push((next.last().0, v@)));
                },
                None => {
                    assert(spec_assigned(next) == spec_assigned(vs.subrange(0, j as int)));
                },
            }
            assert(entries_view(out@) =~= base + spec_assigned(next));
            j = j + 1;
        }
        assert(vs.subrange(0, vs.len() as int) =~= vs);
        Some(out)
    }

    fn names(&self, key: &[u8]) -> (r: bool)
        ensures
            r == names_key(self.spec_vars(), key@),
    {
        let mut i: usize = 0;
        while i < self.vars.len()
            invariant
                i <= self.vars@.len(),
                forall|j: int| 0 <= j < i ==> (#[trigger] self.spec_vars()[j]).0 != key@,
            decreases self.vars.len() - i,
        {
            if bytes_eq(self.vars[i].0.as_slice(), key) {
                assert(self.spec_vars()[i as int].0 == key@);
                return true;
            }
            i = i + 1;
        }
        false
    }
}

} // verus!
