use vstd::prelude::*;
use vstd::string::StrSliceExecFns;

verus! {

/// Number of characters in the scheme prefix `dtn://`.
pub const SCHEME_LEN: usize = 6;

/// Character that, right after the scheme prefix, marks a group (non-singleton) node.
pub const GROUP_MARKER: char = '~';

/// The scheme prefix of a DTN endpoint identifier.
pub open spec fn scheme() -> Seq<char> {
    seq!['d', 't', 'n', ':', '/', '/']
}

pub open spec fn has_scheme(s: Seq<char>) -> bool {
    s.len() >= SCHEME_LEN && s.subrange(0, SCHEME_LEN as int) == scheme()
}

/// Index of the first `/` at or after position `i`, or -1 when there is none.
pub open spec fn slash_from(s: Seq<char>, i: int) -> int
    decreases s.len() - i,
{
    if i < 0 || i >= s.len() {
        -1
    } else if s[i] == '/' {
        i
    } else {
        slash_from(s, i + 1)
    }
}

/// Index of the first `/` after the scheme prefix, or -1 when there is none.
pub open spec fn first_slash(s: Seq<char>) -> int {
    slash_from(s, SCHEME_LEN as int)
}

/// Whether the address has the scheme, a `/` after the node and a non-empty agent.
pub open spec fn is_full(s: Seq<char>) -> bool {
    has_scheme(s) && first_slash(s) >= 0 && first_slash(s) + 1 < s.len()
}

/// The node component: the whole address when it has the scheme but no agent,
/// the text up to and including the first `/` after the scheme when it has one.
pub open spec fn node_part(s: Seq<char>) -> Option<Seq<char>> {
    if is_full(s) {
        Some(s.subrange(0, first_slash(s) + 1))
    } else if has_scheme(s) {
        Some(s)
    } else {
        None
    }
}

/// The agent component: what follows the node's `/` when it is non-empty, or
/// the whole address when it is non-empty and lacks the scheme.
pub open spec fn agent_part(s: Seq<char>) -> Option<Seq<char>> {
    if is_full(s) {
        Some(s.subrange(first_slash(s) + 1, s.len() as int))
    } else if has_scheme(s) || s.len() == 0 {
        None
    } else {
        Some(s)
    }
}

/// A node component names a singleton endpoint unless its character right
/// after the scheme is the group marker; no node at all counts as singleton.
pub open spec fn is_singleton(s: Seq<char>) -> bool {
    match node_part(s) {
        Some(n) => !(n.len() > SCHEME_LEN && n[SCHEME_LEN as int] == GROUP_MARKER),
        None => true,
    }
}

pub open spec fn opt_str_view(o: Option<&str>) -> Option<Seq<char>> {
    match o {
        Some(t) => Some(t@),
        None => None,
    }
}

/// An address with the scheme and a non-empty segment after the first `/`
/// yields both components; the node ends with that `/`, and the node followed
/// by the agent is the address itself.
pub proof fn lemma_full_address_splits(s: Seq<char>)
    requires
        has_scheme(s),
        first_slash(s) >= 0,
        first_slash(s) + 1 < s.len(),
    ensures
        node_part(s) is Some,
        agent_part(s) is Some,
        node_part(s).unwrap().last() == '/',
        node_part(s).unwrap() + agent_part(s).unwrap() == s,
{
    lemma_slash_from_found(s, SCHEME_LEN as int);
    assert(node_part(s).unwrap() + agent_part(s).unwrap() =~= s);
}

/// A found `/` is a `/`, at or after the starting position, with none before it.
pub proof fn lemma_slash_from_found(s: Seq<char>, i: int)
    requires
        0 <= i,
        slash_from(s, i) >= 0,
    ensures
        i <= slash_from(s, i) < s.len(),
        s[slash_from(s, i)] == '/',
        forall|j: int| i <= j < slash_from(s, i) ==> s[j] != '/',
    decreases s.len() - i,
{
    if i < s.len() && s[i] != '/' {
        lemma_slash_from_found(s, i + 1);
    }
}

/// A non-empty address without the scheme is an agent name alone.
pub proof fn lemma_agent_only(s: Seq<char>)
    requires
        !has_scheme(s),
        s.len() > 0,
    ensures
        node_part(s) is None,
        agent_part(s) == Some(s),
{
}

/// The empty address has neither component.
pub proof fn lemma_empty_address()
    ensures
        node_part(Seq::<char>::empty()) is None,
        agent_part(Seq::<char>::empty()) is None,
{
}

/// A node whose character right after the scheme is the group marker is never
/// singleton; any other node, and a missing node, is.
pub proof fn lemma_singleton_iff_no_marker(s: Seq<char>)
    ensures
        is_singleton(s) <==> !(node_part(s) matches Some(n) && n.len() > SCHEME_LEN
            && n[SCHEME_LEN as int] == GROUP_MARKER),
        has_scheme(s) && s.len() > SCHEME_LEN && s[SCHEME_LEN as int] == GROUP_MARKER
            ==> !is_singleton(s),
{
    if has_scheme(s) && s.len() > SCHEME_LEN && s[SCHEME_LEN as int] == GROUP_MARKER {
        if is_full(s) {
            lemma_slash_from_found(s, SCHEME_LEN as int);
        }
    }
}

/// Text equality of two string slices, character by character.
pub fn same_text(a: &str, b: &str) -> (r: bool)
    ensures
        r == (a@ == b@),
{
    let n = a.unicode_len();
    if n != b.unicode_len() {
        return false;
    }
    let mut i: usize = 0;
    while i < n
        invariant
            n == a@.len(),
            n == b@.len(),
            i <= n,
            forall|j: int| 0 <= j < i ==> a@[j] == b@[j],
        decreases n - i,
    {
        if a.get_char(i) != b.get_char(i) {
            return false;
        }
        i = i + 1;
    }
    assert(a@ =~= b@);
    true
}

fn starts_with_scheme(s: &str, n: usize) -> (r: bool)
    requires
        n == s@.len(),
    ensures
        r == has_scheme(s@),
{
    if n < SCHEME_LEN {
        return false;
    }
    let r = s.get_char(0) == 'd' && s.get_char(1) == 't' && s.get_char(2) == 'n'
        && s.get_char(3) == ':' && s.get_char(4) == '/' && s.get_char(5) == '/';
    assert(r == (s@.subrange(0, 6) =~= scheme()));
    r
}

fn find_slash(s: &str, n: usize) -> (r: Option<usize>)
    requires
        n == s@.len(),
    ensures
        match r {
            Some(k) => first_slash(s@) == k as int && SCHEME_LEN <= k < n,
            None => first_slash(s@) == -1,
        },
{
    let mut i: usize = SCHEME_LEN;
    if n < i {
        return None;
    }
    while i < n
        invariant
            n == s@.len(),
            SCHEME_LEN <= i <= n,
            first_slash(s@) == slash_from(s@, i as int),
        decreases n - i,
    {
        if s.get_char(i) == '/' {
            return Some(i);
        }
        i = i + 1;
    }
    None
}

/// An endpoint identifier as typed by a user: either a full `dtn://node/agent`
/// address, a node alone, or an agent name alone (to be completed with the
/// node that the daemon advertises).
#[derive(Debug, Clone)]
pub struct PartialEndpointId(pub String);

impl View for PartialEndpointId {
    type V = Seq<char>;

    open spec fn view(&self) -> Seq<char> {
        self.0@
    }
}

impl From<String> for PartialEndpointId {
    fn from(value: String) -> (r: Self)
        ensures
            r@ == value@,
    {
        PartialEndpointId(value)
    }
}

impl vstd::std_specs::convert::FromSpecImpl<String> for PartialEndpointId {
    open spec fn obeys_from_spec() -> bool {
        true
    }

    open spec fn from_spec(v: String) -> PartialEndpointId {
        PartialEndpointId(v)
    }
}

impl PartialEndpointId {
    /// The raw address text.
    pub fn as_str(&self) -> (r: &str)
        ensures
            r@ == self@,
    {
        self.0.as_str()
    }

    /// Splits the address into its node and agent components.
    pub fn split_node_agent(&self) -> (r: (Option<&str>, Option<&str>))
        ensures
            opt_str_view(r.0) == node_part(self@),
            opt_str_view(r.1) == agent_part(self@),
    {
        let s: &str = self.0.as_str();
        let n = s.unicode_len();
        if starts_with_scheme(s, n) {
            match find_slash(s, n) {
                None => (Some(s), None),
                Some(k) => {
                    if k + 1 == n {
                        (Some(s), None)
                    } else {
                        (Some(s.substring_char(0, k + 1)), Some(s.substring_char(k + 1, n)))
                    }
                },
            }
        } else if n > 0 {
            (None, Some(s))
        } else {
            (None, None)
        }
    }

    /// The node component, scheme and trailing `/` included.
    pub fn node_id(&self) -> (r: Option<&str>)
        ensures
            opt_str_view(r) == node_part(self@),
    {
        self.split_node_agent().0
    }

    /// The agent component, never empty when present.
    pub fn agent_id(&self) -> (r: Option<&str>)
        ensures
            opt_str_view(r) == agent_part(self@),
            r matches Some(a) ==> a@.len() > 0,
    {
        self.split_node_agent().1
    }

    /// Whether the address names a singleton node (or no node at all).
    pub fn is_singleton_node(&self) -> (r: bool)
        ensures
            r == is_singleton(self@),
    {
        match self.node_id() {
            Some(n) => {
                if n.unicode_len() > SCHEME_LEN {
                    n.get_char(SCHEME_LEN) != GROUP_MARKER
                } else {
                    true
                }
            },
            None => true,
        }
    }
}

} // verus!
