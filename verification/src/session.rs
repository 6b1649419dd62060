//! Login sessions of the web servers: the session counter, the table of
//! active session tokens, and the pages that a session token opens.

use vstd::hash_map::StringHashMap;
use vstd::prelude::*;

verus! {

/// The character of a decimal digit `d` (`d < 10`).
pub open spec fn digit_char(d: nat) -> char {
    if d == 0 {
        '0'
    } else if d == 1 {
        '1'
    } else if d == 2 {
        '2'
    } else if d == 3 {
        '3'
    } else if d == 4 {
        '4'
    } else if d == 5 {
        '5'
    } else if d == 6 {
        '6'
    } else if d == 7 {
        '7'
    } else if d == 8 {
        '8'
    } else {
        '9'
    }
}

/// The decimal numeral of `n`, without leading zeros, as `{}` formats it.
pub open spec fn decimal(n: nat) -> Seq<char>
    decreases n,
{
    if n < 10 {
        seq![digit_char(n)]
    } else {
        decimal(n / 10).push(digit_char(n % 10))
    }
}

/// The session token issued for counter value `n`: "session_" and `n` in decimal.
pub open spec fn session_token(n: nat) -> Seq<char> {
    "session_"@ + decimal(n)
}

/// The counter value that follows `n`, wrapping at `u64::MAX` as an atomic
/// `fetch_add(1)` does.
pub open spec fn next_counter(n: u64) -> u64 {
    if n == u64::MAX {
        0
    } else {
        (n + 1) as u64
    }
}

/// The text of one decimal digit.
fn digit_str(d: u64) -> (r: &'static str)
    requires
        d < 10,
    ensures
        r@ == seq![digit_char(d as nat)],
{
    if d == 0 {
        proof { reveal_strlit("0"); }
        "0"
    } else if d == 1 {
        proof { reveal_strlit("1"); }
        "1"
    } else if d == 2 {
        proof { reveal_strlit("2"); }
        "2"
    } else if d == 3 {
        proof { reveal_strlit("3"); }
        "3"
    } else if d == 4 {
        proof { reveal_strlit("4"); }
        "4"
    } else if d == 5 {
        proof { reveal_strlit("5"); }
        "5"
    } else if d == 6 {
        proof { reveal_strlit("6"); }
        "6"
    } else if d == 7 {
        proof { reveal_strlit("7"); }
        "7"
    } else if d == 8 {
        proof { reveal_strlit("8"); }
        "8"
    } else {
        proof { reveal_strlit("9"); }
        "9"
    }
}

/// Appends the decimal numeral of `n` to `s`.
pub(crate) fn append_decimal(s: &mut String, n: u64)
    ensures
        final(s)@ == old(s)@ + decimal(n as nat),
    decreases n,
{
    if n >= 10 {
        append_decimal(s, n / 10);
    }
    let ghost before = s@;
    s.append(digit_str(n % 10));
    proof {
        if n >= 10 {
            assert(old(s)@ + decimal(n as nat) =~= old(s)@ + decimal((n / 10) as nat) + seq![
                digit_char((n % 10) as nat),
            ]);
        } else {
            assert(before == old(s)@);
        }
    }
}

/// The session token for counter value `n`, as `format!("session_{}", n)` writes it.
pub fn session_token_for(n: u64) -> (r: String)
    ensures
        r@ == session_token(n as nat),
{
    let mut s = "session_".to_string();
    append_decimal(&mut s, n);
    s
}

/// The sessions of a server: the counter from which the next token is made,
/// and the set of tokens that are active. A token, once active, stays active.
pub struct SessionStore {
    counter: u64,
    active_sessions: StringHashMap<bool>,
}

impl SessionStore {
    /// The counter value from which the next session token is made.
    pub closed spec fn counter(self) -> u64 {
        self.counter
    }

    /// The active session tokens.
    pub closed spec fn sessions(self) -> Set<Seq<char>> {
        self.active_sessions@.dom()
    }

    /// Every active token was made from a counter value below the current
    /// one: the tokens issued so far, before any wrap-around.
    pub open spec fn tokens_below_counter(self) -> bool {
        forall|t: Seq<char>|
            #[trigger] self.sessions().contains(t) ==> exists|m: nat|
                m < self.counter() && t == session_token(m)
    }

    /// A store with no active session whose first token is "session_1".
    pub fn new() -> (r: SessionStore)
        ensures
            r.counter() == 1,
            r.sessions() == Set::<Seq<char>>::empty(),
            r.tokens_below_counter(),
    {
        SessionStore { counter: 1, active_sessions: StringHashMap::new() }
    }

    /// Whether `token` is an active session token.
    pub fn is_active(&self, token: &str) -> (r: bool)
        ensures
            r == self.sessions().contains(token@),
    {
        self.active_sessions.contains_key(token)
    }

    /// Issues a fresh session token: takes the counter value, advances the
    /// counter (wrapping), and makes the token active.
    pub fn open_session(&mut self) -> (token: String)
        ensures
            token@ == session_token(old(self).counter() as nat),
            final(self).counter() == next_counter(old(self).counter()),
            final(self).sessions() == old(self).sessions().insert(token@),
    {
        let n = self.counter;
        self.counter = n.wrapping_add(1);
        let token = session_token_for(n);
        let key = token.clone();
        self.active_sessions.insert(key, true);
        token
    }
}

/// While every active token comes from a counter value below the counter,
/// the next token to be issued is not active yet.
pub proof fn lemma_next_token_is_fresh(store: SessionStore)
    requires
        store.tokens_below_counter(),
    ensures
        !store.sessions().contains(session_token(store.counter() as nat)),
{
    let t = session_token(store.counter() as nat);
    if store.sessions().contains(t) {
        let m = choose|m: nat| m < store.counter() && t == session_token(m);
        lemma_session_token_injective(m, store.counter() as nat);
    }
}

/// Opening a session keeps every active token below the counter, as long as
/// the counter has not reached `u64::MAX` (where it wraps to 0); so, over a
/// whole run from `SessionStore::new`, no token is handed out twice.
pub proof fn lemma_open_session_keeps_tokens_below(
    before: SessionStore,
    after: SessionStore,
    token: Seq<char>,
)
    requires
        before.tokens_below_counter(),
        before.counter() < u64::MAX,
        token == session_token(before.counter() as nat),
        after.counter() == next_counter(before.counter()),
        after.sessions() == before.sessions().insert(token),
    ensures
        after.tokens_below_counter(),
        !before.sessions().contains(token),
{
    lemma_next_token_is_fresh(before);
    assert forall|t: Seq<char>| #[trigger] after.sessions().contains(t) implies exists|m: nat|
        m < after.counter() && t == session_token(m) by {
        if t == token {
            assert(before.counter() < after.counter());
        } else {
            assert(before.sessions().contains(t));
            let m = choose|m: nat| m < before.counter() && t == session_token(m);
            assert(m < after.counter());
        }
    }
}

/// A numeral has at least one digit, and at least two from ten on.
proof fn lemma_decimal_len(n: nat)
    ensures
        decimal(n).len() >= 1,
        n >= 10 ==> decimal(n).len() >= 2,
    decreases n,
{
    if n >= 10 {
        lemma_decimal_len(n / 10);
    }
}

/// Different digits have different characters.
proof fn lemma_digit_char_injective(a: nat, b: nat)
    requires
        a < 10,
        b < 10,
        digit_char(a) == digit_char(b),
    ensures
        a == b,
{
}

/// Different numbers have different numerals.
pub proof fn lemma_decimal_injective(a: nat, b: nat)
    requires
        decimal(a) == decimal(b),
    ensures
        a == b,
    decreases a,
{
    lemma_decimal_len(a);
    lemma_decimal_len(b);
    if a >= 10 && b >= 10 {
        let da = decimal(a);
        let db = decimal(b);
        assert(da.last() == digit_char(a % 10));
        assert(db.last() == digit_char(b % 10));
        lemma_digit_char_injective(a % 10, b % 10);
        assert(da.drop_last() =~= decimal(a / 10));
        assert(db.drop_last() =~= decimal(b / 10));
        lemma_decimal_injective(a / 10, b / 10);
        assert(a == 10 * (a / 10) + a % 10);
        assert(b == 10 * (b / 10) + b % 10);
    } else if a < 10 && b < 10 {
        assert(decimal(a) == seq![digit_char(a)]);
        assert(decimal(b) == seq![digit_char(b)]);
        assert(decimal(a)[0] == decimal(b)[0]);
        assert(seq![digit_char(a)][0] == digit_char(a));
        assert(seq![digit_char(b)][0] == digit_char(b));
        lemma_digit_char_injective(a, b);
    }
}

/// Tokens made from different counter values are different, so a session
/// token is never issued twice while the counter has not wrapped around.
pub proof fn lemma_session_token_injective(a: nat, b: nat)
    requires
        session_token(a) == session_token(b),
    ensures
        a == b,
{
    let p = "session_"@;
    assert(session_token(a).subrange(p.len() as int, session_token(a).len() as int) =~= decimal(a));
    assert(session_token(b).subrange(p.len() as int, session_token(b).len() as int) =~= decimal(b));
    lemma_decimal_injective(a, b);
}

} // verus!
