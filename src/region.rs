use vstd::prelude::*;
use vstd::std_specs::iter::IteratorSpec;

verus! {

/// Deployment region encoded in the last dot-separated segment of a token.
#[derive(Clone, Copy, Debug, PartialEq, Eq, Structural)]
pub enum Region {
    Us,
    Eu,
    In,
    Global,
}

/// Index at which the last segment of `s` starts: just past the last `.`,
/// or 0 when `s` holds none.
pub open spec fn segment_start(s: Seq<char>) -> nat
    decreases s.len(),
{
    if s.len() == 0 {
        0
    } else if s.last() == '.' {
        s.len()
    } else {
        segment_start(s.drop_last())
    }
}

/// The characters after the last `.` of `s`; all of `s` when it holds none.
pub open spec fn last_segment(s: Seq<char>) -> Seq<char> {
    s.subrange(segment_start(s) as int, s.len() as int)
}

/// The region that a token names by its last segment. A token without a
/// `.` names no region.
pub open spec fn region_of(token: Seq<char>) -> Region {
    let seg = last_segment(token);
    if segment_start(token) == 0 {
        Region::Global
    } else if seg == seq!['u', 's'] {
        Region::Us
    } else if seg == seq!['e', 'u'] {
        Region::Eu
    } else if seg == seq!['i', 'n'] {
        Region::In
    } else {
        Region::Global
    }
}

/// The API host of each region.
pub open spec fn region_url(r: Region) -> Seq<char> {
    match r {
        Region::Us => "https://api.us.svix.com"@,
        Region::Eu => "https://api.eu.svix.com"@,
        Region::In => "https://api.in.svix.com"@,
        Region::Global => "https://api.svix.com"@,
    }
}

proof fn lemma_segment_start_bound(s: Seq<char>)
    ensures
        segment_start(s) <= s.len(),
    decreases s.len(),
{
    if s.len() > 0 && s.last() != '.' {
        lemma_segment_start_bound(s.drop_last());
    }
}

/// Appending a character either starts a new segment (a dot) or extends the
/// last one.
proof fn lemma_last_segment_push(s: Seq<char>, c: char)
    ensures
        segment_start(s.push(c)) == (if c == '.' {
            s.len() + 1
        } else {
            segment_start(s)
        }),
        last_segment(s.push(c)) == (if c == '.' {
            Seq::<char>::empty()
        } else {
            last_segment(s).push(c)
        }),
{
    let t = s.push(c);
    assert(t.drop_last() =~= s);
    lemma_segment_start_bound(s);
    if c == '.' {
        assert(last_segment(t) =~= Seq::<char>::empty());
    } else {
        assert(last_segment(t) =~= last_segment(s).push(c));
    }
}

/// A token that ends in `.us`, `.eu` or `.in` names that region, whatever
/// comes before the dot.
pub proof fn lemma_regional_suffix(prefix: Seq<char>)
    ensures
        region_of(prefix + seq!['.', 'u', 's']) == Region::Us,
        region_of(prefix + seq!['.', 'e', 'u']) == Region::Eu,
        region_of(prefix + seq!['.', 'i', 'n']) == Region::In,
{
    let p = prefix.len();
    lemma_segment_start_bound(prefix);
    let d = prefix.push('.');
    assert(d.drop_last() =~= prefix);
    assert(segment_start(d) == p + 1);
    lemma_last_segment_push(d, 'u');
    lemma_last_segment_push(d, 'e');
    lemma_last_segment_push(d, 'i');
    lemma_last_segment_push(d.push('u'), 's');
    lemma_last_segment_push(d.push('e'), 'u');
    lemma_last_segment_push(d.push('i'), 'n');
    assert(last_segment(d) =~= Seq::<char>::empty());
    assert(prefix + seq!['.', 'u', 's'] =~= d.push('u').push('s'));
    assert(prefix + seq!['.', 'e', 'u'] =~= d.push('e').push('u'));
    assert(prefix + seq!['.', 'i', 'n'] =~= d.push('i').push('n'));
    assert(Seq::<char>::empty().push('u').push('s') =~= seq!['u', 's']);
    assert(Seq::<char>::empty().push('e').push('u') =~= seq!['e', 'u']);
    assert(Seq::<char>::empty().push('i').push('n') =~= seq!['i', 'n']);
}

proof fn lemma_undotted_start(token: Seq<char>)
    requires
        !token.contains('.'),
    ensures
        segment_start(token) == 0,
    decreases token.len(),
{
    if token.len() > 0 {
        let t = token.drop_last();
        assert(token[token.len() - 1] != '.');
        assert(!t.contains('.')) by {
            if t.contains('.') {
                let k = choose|k: int| 0 <= k < t.len() && t[k] == '.';
                assert(token[k] == '.');
            }
        }
        lemma_undotted_start(t);
    }
}

/// A token without a `.` names no region, whatever its characters.
pub proof fn lemma_undotted_is_global(token: Seq<char>)
    requires
        !token.contains('.'),
    ensures
        region_of(token) == Region::Global,
{
    lemma_undotted_start(token);
}

impl Region {
    /// The region named by the last dot-separated segment of `token`. Tokens
    /// without a dot, and those with any other last segment, name no region.
    pub fn of_token(token: &str) -> (r: Region)
        ensures
            r == region_of(token@),
    {
        let mut it = token.chars();
        let mut seg: Vec<char> = Vec::new();
        let mut dotted = false;
        let ghost mut i: int = 0;
        assert(token@.subrange(0, 0) =~= Seq::<char>::empty());
        assert(token@.subrange(0, token@.len() as int) =~= token@);
        loop
            invariant
                0 <= i <= token@.len(),
                it.remaining() == token@.subrange(i, token@.len() as int),
                seg@ == last_segment(token@.subrange(0, i)),
                dotted == (segment_start(token@.subrange(0, i)) > 0),
            ensures
                seg@ == last_segment(token@),
                dotted == (segment_start(token@) > 0),
            decreases token@.len() - i,
        {
            match it.next() {
                Some(c) => {
                    proof {
                        lemma_last_segment_push(token@.subrange(0, i), c);
                        assert(token@.subrange(0, i + 1) =~= token@.subrange(0, i).push(c));
                    }
                    if c == '.' {
                        seg = Vec::new();
                        dotted = true;
                    } else {
                        seg.push(c);
                    }
                    proof {
                        i = i + 1;
                    }
                },
                None => {
                    assert(token@.subrange(0, i) =~= token@);
                    break ;
                },
            }
        }
        if !dotted {
            Region::Global
        } else if seg.len() == 2 && seg[0] == 'u' && seg[1] == 's' {
            assert(seg@ =~= seq!['u', 's']);
            Region::Us
        } else if seg.len() == 2 && seg[0] == 'e' && seg[1] == 'u' {
            assert(seg@ =~= seq!['e', 'u']);
            Region::Eu
        } else if seg.len() == 2 && seg[0] == 'i' && seg[1] == 'n' {
            assert(seg@ =~= seq!['i', 'n']);
            Region::In
        } else {
            Region::Global
        }
    }

    /// The API host that serves this region.
    pub fn base_url(&self) -> (r: String)
        ensures
            r@ == region_url(*self),
    {
        match self {
            Region::Us => "https://api.us.svix.com".to_owned(),
            Region::Eu => "https://api.eu.svix.com".to_owned(),
            Region::In => "https://api.in.svix.com".to_owned(),
            Region::Global => "https://api.svix.com".to_owned(),
        }
    }
}

/// The API host for `token` when no server URL is configured: the host of the
/// region named by the token's last dot-separated segment, or the global host.
pub fn default_base_url(token: &str) -> (r: String)
    ensures
        r@ == region_url(region_of(token@)),
{
    Region::of_token(token).base_url()
}

} // verus!
