use vstd::prelude::*;

verus! {

/// Whether a byte string holds a NUL byte.
pub open spec fn has_nul(s: Seq<u8>) -> bool {
    exists|i: int| 0 <= i < s.len() && s[i] == 0u8
}

/// The text `<string-with-nul>` that stands in for a string holding a NUL.
pub open spec fn nul_placeholder() -> Seq<u8> {
    seq![
        60u8, 115u8, 116u8, 114u8, 105u8, 110u8, 103u8, 45u8, 119u8, 105u8, 116u8, 104u8, 45u8,
        110u8, 117u8, 108u8, 62u8,
    ]
}

/// The NUL-terminated form of a byte string: the string and a trailing NUL, or the
/// terminated placeholder when the string itself holds a NUL.
pub open spec fn spec_cstr(s: Seq<u8>) -> Seq<u8> {
    if has_nul(s) {
        nul_placeholder().push(0u8)
    } else {
        s.push(0u8)
    }
}

/// The bytes `KEY=VALUE` of one environment entry.
pub open spec fn spec_entry(key: Seq<u8>, val: Seq<u8>) -> Seq<u8> {
    key + seq![61u8] + val
}

/// Whether an environment entry, once joined, holds a NUL.
pub open spec fn entry_has_nul(e: (Seq<u8>, Seq<u8>)) -> bool {
    has_nul(spec_entry(e.0, e.1))
}

/// The view of a list of key/value entries.
pub open spec fn entries_view(s: Seq<(Vec<u8>, Vec<u8>)>) -> Seq<(Seq<u8>, Seq<u8>)> {
    s.map_values(|e: (Vec<u8>, Vec<u8>)| (e.0@, e.1@))
}

/// The exec-time environment: one terminated `KEY=VALUE` per entry, in order,
/// leaving out each entry that holds a NUL.
pub open spec fn spec_envp(env: Seq<(Seq<u8>, Seq<u8>)>) -> Seq<Seq<u8>>
    decreases env.len(),
{
    if env.len() == 0 {
        Seq::empty()
    } else {
        let prev = spec_envp(env.drop_last());
        let e = env.last();
        if entry_has_nul(e) {
            prev
        } else {
            prev.push(spec_entry(e.0, e.1).push(0u8))
        }
    }
}

/// Whether any entry of an environment holds a NUL.
pub open spec fn env_has_nul(env: Seq<(Seq<u8>, Seq<u8>)>) -> bool {
    exists|i: int| 0 <= i < env.len() && entry_has_nul(#[trigger] env[i])
}

/// Whether a byte string holds a NUL, by a scan.
pub fn contains_nul(s: &[u8]) -> (r: bool)
    ensures
        r == has_nul(s@),
{
    let mut i: usize = 0;
    while i < s.len()
        invariant
            i <= s@.len(),
            forall|j: int| 0 <= j < i ==> s@[j] != 0u8,
        decreases s.len() - i,
    {
        if s[i] == 0 {
            return true;
        }
        i = i + 1;
    }
    false
}

/// The placeholder text, terminated.
fn placeholder_cstr() -> (r: Vec<u8>)
    ensures
        r@ == nul_placeholder().push(0u8),
{
    let r = vec![
        60u8, 115u8, 116u8, 114u8, 105u8, 110u8, 103u8, 45u8, 119u8, 105u8, 116u8, 104u8, 45u8,
        110u8, 117u8, 108u8, 62u8, 0u8,
    ];
    assert(r@ =~= nul_placeholder().push(0u8));
    r
}

/// Appends every byte of `s` to `out`.
fn extend_bytes(out: &mut Vec<u8>, s: &[u8])
    ensures
        final(out)@ == old(out)@ + s@,
{
    let mut i: usize = 0;
    while i < s.len()
        invariant
            i <= s@.len(),
            out@ == old(out)@ + s@.subrange(0, i as int),
        decreases s.len() - i,
    {
        out.push(s[i]);
        i = i + 1;
        assert(s@.subrange(0, i as int) =~= s@.subrange(0, i - 1 as int).push(s@[i - 1]));
    }
    assert(s@.subrange(0, s@.len() as int) =~= s@);
}

/// The NUL-terminated form of `s`. A string that holds a NUL is replaced by the
/// placeholder and raises `saw_nul`, so that the launch fails later.
pub fn os2c(s: &[u8], saw_nul: &mut bool) -> (r: Vec<u8>)
    ensures
        r@ == spec_cstr(s@),
        *final(saw_nul) == (*old(saw_nul) || has_nul(s@)),
{
    if contains_nul(s) {
        *saw_nul = true;
        placeholder_cstr()
    } else {
        let mut r: Vec<u8> = Vec::new();
        extend_bytes(&mut r, s);
        r.push(0u8);
        assert(r@ =~= s@.push(0u8));
        r
    }
}

/// The exec-time environment of an ordered key/value list: `KEY=VALUE` and a NUL
/// per entry. An entry that holds a NUL is left out and raises `saw_nul`.
pub fn construct_envp(env: &Vec<(Vec<u8>, Vec<u8>)>, saw_nul: &mut bool) -> (r: Vec<Vec<u8>>)
    ensures
        r@.map_values(|c: Vec<u8>| c@) == spec_envp(entries_view(env@)),
        *final(saw_nul) == (*old(saw_nul) || env_has_nul(entries_view(env@))),
{
    let ghost ev = entries_view(env@);
    let mut result: Vec<Vec<u8>> = Vec::new();
    let mut i: usize = 0;
    while i < env.len()
        invariant
            i <= env@.len(),
            ev == entries_view(env@),
            result@.map_values(|c: Vec<u8>| c@) == spec_envp(ev.subrange(0, i as int)),
            *saw_nul == (*old(saw_nul) || env_has_nul(ev.subrange(0, i as int))),
        decreases env.len() - i,
    {
        let ghost pre = ev.subrange(0, i as int);
        let ghost next = ev.subrange(0, i + 1 as int);
        assert(next.drop_last() =~= pre);
        assert(next.last() == (env@[i as int].0@, env@[i as int].1@));
        let mut item: Vec<u8> = Vec::new();
        extend_bytes(&mut item, env[i].0.as_slice());
        item.push(61u8);
        extend_bytes(&mut item, env[i].1.as_slice());
        assert(item@ =~= spec_entry(env@[i as int].0@, env@[i as int].1@));
        if contains_nul(item.as_slice()) {
            *saw_nul = true;
            assert(next[i as int] == next.last());
        } else {
            item.push(0u8);
            result.push(item);
            assert(result@.map_values(|c: Vec<u8>| c@) =~= spec_envp(next));
            assert(env_has_nul(next) == env_has_nul(pre)) by {
                if env_has_nul(next) {
                    let j = choose|j: int| 0 <= j < next.len() && entry_has_nul(#[trigger] next[j]);
                    assert(j < i);
                    assert(pre[j] == next[j]);
                }
                if env_has_nul(pre) {
                    let j = choose|j: int| 0 <= j < pre.len() && entry_has_nul(#[trigger] pre[j]);
                    assert(pre[j] == next[j]);
                }
            }
        }
        i = i + 1;
    }
    assert(ev.subrange(0, ev.len() as int) =~= ev);
    result
}

/// A string without a NUL comes back byte for byte, followed by one NUL, and
/// the terminated form holds no other NUL.
pub proof fn lemma_cstr_round_trip(s: Seq<u8>)
    requires
        !has_nul(s),
    ensures
        spec_cstr(s).len() == s.len() + 1,
        spec_cstr(s).subrange(0, s.len() as int) == s,
        spec_cstr(s)[s.len() as int] == 0u8,
        !has_nul(spec_cstr(s).subrange(0, s.len() as int)),
{
    assert(spec_cstr(s).subrange(0, s.len() as int) =~= s);
}

/// An environment none of whose entries holds a NUL comes back whole: entry `i`
/// of the result is `KEY=VALUE` of entry `i`, byte for byte, followed by one NUL.
pub proof fn lemma_envp_round_trip(env: Seq<(Seq<u8>, Seq<u8>)>)
    requires
        !env_has_nul(env),
    ensures
        spec_envp(env).len() == env.len(),
        forall|i: int|
            0 <= i < env.len() ==> #[trigger] spec_envp(env)[i] == spec_entry(env[i].0, env[i].1).push(0u8),
    decreases env.len(),
{
    if env.len() > 0 {
        let prev = env.drop_last();
        assert(!env_has_nul(prev)) by {
            if env_has_nul(prev) {
                let j = choose|j: int| 0 <= j < prev.len() && entry_has_nul(#[trigger] prev[j]);
                assert(env[j] == prev[j]);
            }
        }
        lemma_envp_round_trip(prev);
        assert(!entry_has_nul(env[env.len() - 1]));
        assert forall|i: int| 0 <= i < env.len() implies #[trigger] spec_envp(env)[i] == spec_entry(env[i].0, env[i].1).push(0u8) by {
            if i < env.len() - 1 {
                assert(prev[i] == env[i]);
            }
        }
    }
}

} // verus!
