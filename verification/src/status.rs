//! Rendering a state record into the published status snapshot: the
//! per-state display glyph, the `HH:MM:SS` elapsed clock, the tooltip,
//! and the two payload shapes the status file may carry.

use vstd::prelude::*;

use crate::user::{State, User};

verus! {

/// The decimal digit `d` as a character.
pub open spec fn digit_char(d: int) -> char {
    if d == 0 {
        '0'
    } else if d == 1 {
        '1'
    } else if d == 2 {
        '2'
    } else if d == 3 {
        '3'
    } else if d == 4 {
        '4'
    } else if d == 5 {
        '5'
    } else if d == 6 {
        '6'
    } else if d == 7 {
        '7'
    } else if d == 8 {
        '8'
    } else {
        '9'
    }
}

/// `n` in decimal, most significant digit first, no leading zeros.
pub open spec fn dec_digits(n: int) -> Seq<char>
    decreases n,
{
    if n < 10 {
        seq![digit_char(n)]
    } else {
        dec_digits(n / 10) + seq![digit_char(n % 10)]
    }
}

/// `n` zero-padded to (at least) two digits; for `n < 100` exactly two.
pub open spec fn two_digits(n: int) -> Seq<char> {
    seq![digit_char(n / 10), digit_char(n % 10)]
}

/// `total_secs` as an `HH:MM:SS` clock. Hours grow past two digits
/// rather than wrapping.
pub open spec fn hh_mm_ss(total_secs: int) -> Seq<char> {
    let h = total_secs / 3600;
    let m = (total_secs % 3600) / 60;
    let s = total_secs % 60;
    (if h < 100 {
        two_digits(h)
    } else {
        dec_digits(h)
    }) + seq![':'] + two_digits(m) + seq![':'] + two_digits(s)
}

/// Append the single digit `d` to `out`.
fn push_digit(out: &mut String, d: u64)
    requires
        d < 10,
    ensures
        final(out)@ == old(out)@ + seq![digit_char(d as int)],
{
    let s: &str = match d {
        0 => "0",
        1 => "1",
        2 => "2",
        3 => "3",
        4 => "4",
        5 => "5",
        6 => "6",
        7 => "7",
        8 => "8",
        _ => "9",
    };
    proof {
        reveal_strlit("0");
        reveal_strlit("1");
        reveal_strlit("2");
        reveal_strlit("3");
        reveal_strlit("4");
        reveal_strlit("5");
        reveal_strlit("6");
        reveal_strlit("7");
        reveal_strlit("8");
        reveal_strlit("9");
        assert(s@ =~= seq![digit_char(d as int)]);
    }
    out.append(s);
}

/// Append `n` zero-padded to two digits.
fn push_two_digits(out: &mut String, n: u64)
    requires
        n < 100,
    ensures
        final(out)@ == old(out)@ + two_digits(n as int),
{
    push_digit(out, n / 10);
    push_digit(out, n % 10);
    assert(final(out)@ =~= old(out)@ + two_digits(n as int));
}

/// Append `n` in full decimal.
fn push_dec(out: &mut String, n: u64)
    ensures
        final(out)@ == old(out)@ + dec_digits(n as int),
    decreases n,
{
    if n < 10 {
        push_digit(out, n);
    } else {
        push_dec(out, n / 10);
        push_digit(out, n % 10);
        assert(final(out)@ =~= old(out)@ + dec_digits(n as int));
    }
}

/// `total_secs` rendered as the `HH:MM:SS` clock of `hh_mm_ss`.
pub fn format_hh_mm_ss(total_secs: u64) -> (r: String)
    ensures
        r@ == hh_mm_ss(total_secs as int),
{
    let h = total_secs / 3600;
    let m = (total_secs % 3600) / 60;
    let s = total_secs % 60;
    assert(m < 60);
    let mut out = String::new();
    if h < 100 {
        push_two_digits(&mut out, h);
    } else {
        push_dec(&mut out, h);
    }
    proof {
        reveal_strlit(":");
        assert(":"@ =~= seq![':']);
    }
    out.append(":");
    push_two_digits(&mut out, m);
    out.append(":");
    push_two_digits(&mut out, s);
    assert(out@ =~= hh_mm_ss(total_secs as int));
    out
}

/// The status-bar glyph for each state: a coloured dot while Idle or
/// Active, a loud banner once the user should take a break.
pub open spec fn message_text(s: State) -> Seq<char> {
    match s {
        State::Active => "<span foreground='#a6e3a1'> ● </span>"@,
        State::Idle => "<span foreground='#f9e2af'> ○ </span>"@,
        State::Alert => "<span foreground='#fab387' weight='bold' size='x-large'>GET UP</span>"@,
    }
}

/// The state's name as it appears in the tooltip.
pub open spec fn state_name(s: State) -> Seq<char> {
    match s {
        State::Active => "Active"@,
        State::Idle => "Idle"@,
        State::Alert => "Alert"@,
    }
}

/// The tooltip: the state name and the elapsed clock.
pub open spec fn tooltip_text(s: State, elapsed_secs: int) -> Seq<char> {
    state_name(s) + ": "@ + hh_mm_ss(elapsed_secs)
}

/// Whole seconds spent in the current state as of `now`, rounded down.
pub open spec fn spec_elapsed_secs(u: User, now: u64) -> int {
    (now - u.updated) / 1000
}

/// The single-line payload shape: `<STATE> HH:MM:SS` and a newline.
pub open spec fn line_payload(s: State, elapsed_secs: int) -> Seq<char> {
    state_name(s) + " "@ + hh_mm_ss(elapsed_secs) + "\n"@
}

/// The structured payload shape: a JSON object holding the display
/// text and the tooltip, keys in this order.
pub open spec fn json_payload(text: Seq<char>, tooltip: Seq<char>) -> Seq<char> {
    "{\"text\":\""@ + text + "\",\"tooltip\":\""@ + tooltip + "\"}"@
}

/// A character that JSON prints as itself: not a quote, not a
/// backslash, not a control character.
pub open spec fn json_plain_char(c: char) -> bool {
    c != '"' && c != '\\' && c as u32 >= 32
}

/// A string every character of which JSON prints as itself.
pub open spec fn json_plain(s: Seq<char>) -> bool {
    forall|i: int| 0 <= i < s.len() ==> json_plain_char(#[trigger] s[i])
}

pub proof fn lemma_json_plain_concat(a: Seq<char>, b: Seq<char>)
    requires
        json_plain(a),
        json_plain(b),
    ensures
        json_plain(a + b),
{
    assert forall|i: int| 0 <= i < (a + b).len() implies json_plain_char(#[trigger] (a + b)[i]) by {
        if i < a.len() {
            assert((a + b)[i] == a[i]);
        } else {
            assert((a + b)[i] == b[i - a.len()]);
        }
    }
}

pub proof fn lemma_json_plain_dec(n: int)
    ensures
        json_plain(dec_digits(n)),
    decreases n,
{
    if n < 10 {
        assert(dec_digits(n)[0] == digit_char(n));
    } else {
        lemma_json_plain_dec(n / 10);
        assert(seq![digit_char(n % 10)][0] == digit_char(n % 10));
        lemma_json_plain_concat(dec_digits(n / 10), seq![digit_char(n % 10)]);
    }
}

pub proof fn lemma_json_plain_two_digits(n: int)
    ensures
        json_plain(two_digits(n)),
{
    assert(two_digits(n)[0] == digit_char(n / 10));
    assert(two_digits(n)[1] == digit_char(n % 10));
}

pub proof fn lemma_json_plain_hh_mm_ss(total_secs: int)
    ensures
        json_plain(hh_mm_ss(total_secs)),
{
    let h = total_secs / 3600;
    let m = (total_secs % 3600) / 60;
    let s = total_secs % 60;
    let hours = if h < 100 {
        two_digits(h)
    } else {
        dec_digits(h)
    };
    if h < 100 {
        lemma_json_plain_two_digits(h);
    } else {
        lemma_json_plain_dec(h);
    }
    lemma_json_plain_two_digits(m);
    lemma_json_plain_two_digits(s);
    assert(seq![':'][0] == ':');
    lemma_json_plain_concat(hours, seq![':']);
    lemma_json_plain_concat(hours + seq![':'], two_digits(m));
    lemma_json_plain_concat(hours + seq![':'] + two_digits(m), seq![':']);
    lemma_json_plain_concat(hours + seq![':'] + two_digits(m) + seq![':'], two_digits(s));
}

pub proof fn lemma_message_text_plain(s: State)
    ensures
        json_plain(message_text(s)),
{
    reveal_strlit("<span foreground='#a6e3a1'> ● </span>");
    reveal_strlit("<span foreground='#f9e2af'> ○ </span>");
    reveal_strlit("<span foreground='#fab387' weight='bold' size='x-large'>GET UP</span>");
}

pub proof fn lemma_tooltip_text_plain(s: State, elapsed_secs: int)
    ensures
        json_plain(tooltip_text(s, elapsed_secs)),
{
    reveal_strlit("Active");
    reveal_strlit("Idle");
    reveal_strlit("Alert");
    reveal_strlit(": ");
    lemma_json_plain_hh_mm_ss(elapsed_secs);
    lemma_json_plain_concat(state_name(s), ": "@);
    lemma_json_plain_concat(state_name(s) + ": "@, hh_mm_ss(elapsed_secs));
}

/// A payload loses nothing: two payloads built from quote-free display
/// texts are equal only when text and tooltip both agree, so whoever
/// reads the published file back gets exactly the snapshot written.
pub proof fn lemma_payload_injective(t1: Seq<char>, tt1: Seq<char>, t2: Seq<char>, tt2: Seq<char>)
    requires
        json_plain(t1),
        json_plain(t2),
        json_payload(t1, tt1) == json_payload(t2, tt2),
    ensures
        t1 == t2,
        tt1 == tt2,
{
    reveal_strlit("{\"text\":\"");
    reveal_strlit("\",\"tooltip\":\"");
    reveal_strlit("\"}");
    let p = "{\"text\":\""@;
    let m = "\",\"tooltip\":\""@;
    let su = "\"}"@;
    let s = json_payload(t1, tt1);
    assert(p.len() == 9);
    assert(m.len() == 13);
    assert(su.len() == 2);
    assert(m[0] == '"');
    if t1.len() < t2.len() {
        let i = p.len() + t1.len();
        assert(s[i as int] == m[0]);
        assert(s[i as int] == t2[t1.len() as int]);
        assert(json_plain_char(t2[t1.len() as int]));
        assert(false);
    }
    if t2.len() < t1.len() {
        let i = p.len() + t2.len();
        assert(s[i as int] == m[0]);
        assert(s[i as int] == t1[t2.len() as int]);
        assert(json_plain_char(t1[t2.len() as int]));
        assert(false);
    }
    assert(t1.len() == t2.len());
    assert(json_payload(t1, tt1).len() == p.len() + t1.len() + m.len() + tt1.len() + su.len());
    assert(json_payload(t2, tt2).len() == p.len() + t2.len() + m.len() + tt2.len() + su.len());
    assert(tt1.len() == tt2.len());
    assert forall|k: int| 0 <= k < t1.len() implies t1[k] == t2[k] by {
        assert(s[p.len() + k] == t1[k]);
        assert(s[p.len() + k] == t2[k]);
    }
    assert(t1 =~= t2);
    assert forall|k: int| 0 <= k < tt1.len() implies tt1[k] == tt2[k] by {
        assert(s[p.len() + t1.len() + m.len() + k] == tt1[k]);
        assert(s[p.len() + t2.len() + m.len() + k] == tt2[k]);
    }
    assert(tt1 =~= tt2);
}

/// Everything the shape of an encoded payload forces, given that the
/// display text holds no quote: lengths, the fixed framing pieces, and
/// where the first quote after the frame's opening can sit.
proof fn lemma_payload_shape(t: Seq<char>, tt: Seq<char>, s: Seq<char>)
    requires
        json_plain(t),
        s == json_payload(t, tt),
    ensures
        s.len() == 24 + t.len() + tt.len(),
        s.subrange(0, 9) == "{\"text\":\""@,
        s[9 + t.len() as int] == '"',
        forall|k: int| 9 <= k < 9 + t.len() as int ==> s[k] != '"',
        s.subrange(9 + t.len() as int, 22 + t.len() as int) == "\",\"tooltip\":\""@,
        s.subrange(s.len() - 2 as int, s.len() as int) == "\"}"@,
        s.subrange(9, 9 + t.len() as int) == t,
        s.subrange(22 + t.len() as int, s.len() - 2 as int) == tt,
{
    reveal_strlit("{\"text\":\"");
    reveal_strlit("\",\"tooltip\":\"");
    reveal_strlit("\"}");
    let p = "{\"text\":\""@;
    let m = "\",\"tooltip\":\""@;
    let su = "\"}"@;
    assert(p.len() == 9);
    assert(m.len() == 13);
    assert(su.len() == 2);
    assert(s.len() == 24 + t.len() + tt.len());
    assert(s.subrange(0, 9) =~= p);
    assert(s[9 + t.len() as int] == m[0]);
    assert forall|k: int| 9 <= k < 9 + t.len() as int implies s[k] != '"' by {
        assert(s[k] == t[k - 9]);
        assert(json_plain_char(t[k - 9]));
    }
    assert(s.subrange(9 + t.len() as int, 22 + t.len() as int) =~= m);
    assert(s.subrange(s.len() - 2 as int, s.len() as int) =~= su);
    assert(s.subrange(9, 9 + t.len() as int) =~= t);
    assert(s.subrange(22 + t.len() as int, s.len() - 2 as int) =~= tt);
}

/// The index of the first quote at or after `start`.
fn find_quote(s: &str, start: usize) -> (r: Option<usize>)
    requires
        start <= s@.len(),
        s@.len() <= usize::MAX,
    ensures
        match r {
            Some(q) => start <= q < s@.len() && s@[q as int] == '"' && (forall|k: int|
                start <= k < q ==> s@[k] != '"'),
            None => forall|k: int| start <= k < s@.len() ==> s@[k] != '"',
        },
{
    let n = s.unicode_len();
    let mut q: usize = start;
    while q < n
        invariant
            start <= q <= n,
            n == s@.len(),
            forall|k: int| start <= k < q ==> s@[k] != '"',
        decreases n - q,
    {
        if s.get_char(q) == '"' {
            return Some(q);
        }
        q += 1;
    }
    None
}

/// Decode a structured payload back into display text and tooltip.
/// Succeeds on exactly the strings that are a payload of some
/// quote-free display text, and hands back the encoded pair.
pub fn parse_status_payload(payload: &str) -> (r: Option<(String, String)>)
    ensures
        match r {
            Some(p) => payload@ == json_payload(p.0@, p.1@),
            None => forall|t: Seq<char>, tt: Seq<char>|
                !(json_plain(t) && payload@ == json_payload(t, tt)),
        },
{
    let n = payload.unicode_len();
    if n < 24 {
        proof {
            assert forall|t: Seq<char>, tt: Seq<char>| !(json_plain(t) && payload@
                == json_payload(t, tt)) by {
                if json_plain(t) && payload@ == json_payload(t, tt) {
                    lemma_payload_shape(t, tt, payload@);
                }
            }
        }
        return None;
    }
    proof {
        reveal_strlit("{\"text\":\"");
        reveal_strlit("\",\"tooltip\":\"");
        reveal_strlit("\"}");
    }
    if !crate::devices::matches_prefix_at(payload, "{\"text\":\"", 0) {
        proof {
            assert forall|t: Seq<char>, tt: Seq<char>| !(json_plain(t) && payload@
                == json_payload(t, tt)) by {
                if json_plain(t) && payload@ == json_payload(t, tt) {
                    lemma_payload_shape(t, tt, payload@);
                    assert(crate::devices::matches_at(payload@, "{\"text\":\""@, 0));
                }
            }
        }
        return None;
    }
    let q1 = match find_quote(payload, 9) {
        Some(q) => q,
        None => {
            proof {
                assert forall|t: Seq<char>, tt: Seq<char>| !(json_plain(t) && payload@
                    == json_payload(t, tt)) by {
                    if json_plain(t) && payload@ == json_payload(t, tt) {
                        lemma_payload_shape(t, tt, payload@);
                    }
                }
            }
            return None;
        },
    };
    if q1 > n - 15 {
        proof {
            assert forall|t: Seq<char>, tt: Seq<char>| !(json_plain(t) && payload@
                == json_payload(t, tt)) by {
                if json_plain(t) && payload@ == json_payload(t, tt) {
                    lemma_payload_shape(t, tt, payload@);
                    assert(q1 == 9 + t.len() as int);
                }
            }
        }
        return None;
    }
    if !crate::devices::matches_prefix_at(payload, "\",\"tooltip\":\"", q1) {
        proof {
            reveal_strlit("\",\"tooltip\":\"");
            assert forall|t: Seq<char>, tt: Seq<char>| !(json_plain(t) && payload@
                == json_payload(t, tt)) by {
                if json_plain(t) && payload@ == json_payload(t, tt) {
                    lemma_payload_shape(t, tt, payload@);
                    assert(q1 == 9 + t.len() as int);
                    assert(crate::devices::matches_at(payload@, "\",\"tooltip\":\""@, q1 as int));
                }
            }
        }
        return None;
    }
    if !crate::devices::matches_prefix_at(payload, "\"}", n - 2) {
        proof {
            reveal_strlit("\"}");
            assert forall|t: Seq<char>, tt: Seq<char>| !(json_plain(t) && payload@
                == json_payload(t, tt)) by {
                if json_plain(t) && payload@ == json_payload(t, tt) {
                    lemma_payload_shape(t, tt, payload@);
                    assert(crate::devices::matches_at(payload@, "\"}"@, n - 2));
                }
            }
        }
        return None;
    }
    let text = String::from_str(payload.substring_char(9, q1));
    let tooltip = String::from_str(payload.substring_char(q1 + 13, n - 2));
    proof {
        reveal_strlit("{\"text\":\"");
        reveal_strlit("\",\"tooltip\":\"");
        reveal_strlit("\"}");
        assert(payload@.subrange(0, 9) == "{\"text\":\""@);
        assert(payload@.subrange(q1 as int, q1 + 13) == "\",\"tooltip\":\""@);
        assert(payload@.subrange(n - 2, n as int) == "\"}"@);
        assert(payload@ =~= json_payload(text@, tooltip@));
    }
    Some((text, tooltip))
}

/// What each tick publishes: the widget's display text and its tooltip.
/// A pure function of the state record and the publish instant.
#[derive(Debug)]
pub struct StatusSnapshot {
    pub display_text: String,
    pub tooltip: String,
}

/// Relies on serde_json: serializing `Value::Object` prints the map's
/// entries in key order ("text" before "tooltip"), and a string none of
/// whose characters is a quote, a backslash or a control character is
/// printed between quotes exactly as it stands.
#[verifier::external_body]
fn json_two_string_fields(text: &str, tooltip: &str) -> (r: String)
    requires
        json_plain(text@),
        json_plain(tooltip@),
    ensures
        r@ == json_payload(text@, tooltip@),
{
    let mut map = serde_json::Map::new();
    map.insert("text".to_string(), serde_json::Value::String(text.to_string()));
    map.insert("tooltip".to_string(), serde_json::Value::String(tooltip.to_string()));
    serde_json::Value::Object(map).to_string()
}

impl User {
    /// The status-bar glyph for the current state.
    pub fn message(&self) -> (r: String)
        ensures
            r@ == message_text(self.state),
    {
        match self.state {
            State::Active => String::from_str("<span foreground='#a6e3a1'> ● </span>"),
            State::Idle => String::from_str("<span foreground='#f9e2af'> ○ </span>"),
            State::Alert => String::from_str(
                "<span foreground='#fab387' weight='bold' size='x-large'>GET UP</span>",
            ),
        }
    }

    /// The snapshot published at instant `now`: the glyph, and a tooltip
    /// whose clock is exactly `now` minus the state's entry instant,
    /// rounded down to whole seconds.
    pub fn snapshot(&self, now: u64) -> (snap: StatusSnapshot)
        requires
            self.updated <= now,
        ensures
            snap.display_text@ == message_text(self.state),
            snap.tooltip@ == tooltip_text(self.state, spec_elapsed_secs(*self, now)),
    {
        let elapsed_secs = self.time_in_current_state(now) / 1000;
        let mut tooltip = match self.state {
            State::Active => String::from_str("Active"),
            State::Idle => String::from_str("Idle"),
            State::Alert => String::from_str("Alert"),
        };
        tooltip.append(": ");
        let clock = format_hh_mm_ss(elapsed_secs);
        tooltip.append(clock.as_str());
        assert(tooltip@ =~= tooltip_text(self.state, spec_elapsed_secs(*self, now)));
        StatusSnapshot { display_text: self.message(), tooltip }
    }

    /// The structured (JSON) payload published at instant `now`.
    pub fn status_payload(&self, now: u64) -> (r: String)
        requires
            self.updated <= now,
        ensures
            r@ == json_payload(
                message_text(self.state),
                tooltip_text(self.state, spec_elapsed_secs(*self, now)),
            ),
    {
        let snap = self.snapshot(now);
        proof {
            lemma_message_text_plain(self.state);
            lemma_tooltip_text_plain(self.state, spec_elapsed_secs(*self, now));
        }
        json_two_string_fields(snap.display_text.as_str(), snap.tooltip.as_str())
    }

    /// The single-line payload published at instant `now`.
    pub fn status_line(&self, now: u64) -> (r: String)
        requires
            self.updated <= now,
        ensures
            r@ == line_payload(self.state, spec_elapsed_secs(*self, now)),
    {
        let elapsed_secs = self.time_in_current_state(now) / 1000;
        let mut out = match self.state {
            State::Active => String::from_str("Active"),
            State::Idle => String::from_str("Idle"),
            State::Alert => String::from_str("Alert"),
        };
        out.append(" ");
        let clock = format_hh_mm_ss(elapsed_secs);
        out.append(clock.as_str());
        out.append("\n");
        assert(out@ =~= line_payload(self.state, spec_elapsed_secs(*self, now)));
        out
    }
}

} // verus!
