//! Printer sharing: names of the local queues installed for printers that
//! other desktops share, and names under which received jobs are listed.

use vstd::prelude::*;
use crate::text::{chars_equal, chars_of, is_ascii_alnum, is_ascii_hexdigit, string_from_chars, strings_view};

verus! {

/// Length at which the part of a queue name taken from the printer's name
/// stops growing.
pub const MAX_QUEUE_NAME_PREFIX: usize = 96;

/// The name after `c` of the printer's name is taken in: kept when it is an
/// ASCII letter or digit, `-` or `_`; otherwise one `_` stands for a run of
/// other characters.
pub open spec fn queue_step(name: Seq<char>, c: char) -> Seq<char> {
    if is_ascii_alnum(c) || c == '-' || c == '_' {
        name.push(c)
    } else if name.len() > 0 && name.last() == '_' {
        name
    } else {
        name.push('_')
    }
}

/// `name` after the characters of `chars` are taken in, until it reaches
/// `MAX_QUEUE_NAME_PREFIX` characters.
pub open spec fn queue_prefix(name: Seq<char>, chars: Seq<char>) -> Seq<char>
    decreases chars.len(),
{
    if chars.len() == 0 || name.len() >= MAX_QUEUE_NAME_PREFIX {
        name
    } else {
        queue_prefix(queue_step(name, chars[0]), chars.drop_first())
    }
}

/// The hexadecimal digits of `s`, in order.
pub open spec fn hex_digits(s: Seq<char>) -> Seq<char> {
    s.filter(hex_pred())
}

/// Whether a character is a hexadecimal digit, as a predicate.
pub open spec fn hex_pred() -> spec_fn(char) -> bool {
    |c: char| is_ascii_hexdigit(c)
}

/// The name of the local queue for the printer `display_name` shared as
/// `share_id`.
pub open spec fn queue_name(display_name: Seq<char>, share_id: Seq<char>) -> Seq<char> {
    let prefix = queue_prefix("ArcRelay_"@, display_name);
    let named = if prefix == "ArcRelay_"@ { prefix + "Printer"@ } else { prefix };
    named + "_"@ + hex_digits(share_id).take(
        if hex_digits(share_id).len() < 8 { hex_digits(share_id).len() as int } else { 8 },
    )
}

/// The name of the local print queue installed for the shared printer
/// `display_name` under `share_id`: `ArcRelay_`, the printer's name reduced
/// to ASCII letters, digits, `-` and `_` (up to 96 characters in all; a run
/// of anything else becomes one `_`; `Printer` when nothing is left), `_`,
/// and the first eight hexadecimal digits of the share id.
pub fn printer_queue_name(display_name: &str, share_id: &str) -> (s: String)
    ensures
        s@ == queue_name(display_name@, share_id@),
{
    broadcast use Seq::lemma_filter_push;
    let d = chars_of(display_name);
    let mut name = chars_of("ArcRelay_");
    proof {
        reveal_strlit("ArcRelay_");
    }
    let mut i: usize = 0;
    assert(d@.skip(0) =~= d@);
    while i < d.len() && name.len() < MAX_QUEUE_NAME_PREFIX
        invariant
            i <= d@.len(),
            name@.len() > 0,
            name@.len() <= MAX_QUEUE_NAME_PREFIX,
            queue_prefix("ArcRelay_"@, d@) == queue_prefix(name@, d@.skip(i as int)),
        decreases d@.len() - i,
    {
        let c = d[i];
        let last = name[name.len() - 1];
        if is_ascii_alnum_char(c) || c == '-' || c == '_' {
            name.push(c);
        } else if last != '_' {
            name.push('_');
        }
        assert(d@.skip(i as int).drop_first() =~= d@.skip(i + 1));
        assert(d@.skip(i as int)[0] == c);
        i = i + 1;
    }
    assert(queue_prefix(name@, d@.skip(i as int)) == name@);
    let ghost prefix = name@;
    assert(prefix == queue_prefix("ArcRelay_"@, d@));
    if chars_equal(&name, &chars_of("ArcRelay_")) {
        let p = chars_of("Printer");
        let mut k: usize = 0;
        let ghost before = name@;
        while k < p.len()
            invariant
                k <= p@.len(),
                name@ == before + p@.take(k as int),
            decreases p@.len() - k,
        {
            name.push(p[k]);
            k = k + 1;
            assert(p@.take(k as int) =~= p@.take(k - 1).push(p@[k - 1]));
        }
        assert(p@.take(p@.len() as int) =~= p@);
    }
    let ghost named = name@;
    assert(named == if prefix == "ArcRelay_"@ { prefix + "Printer"@ } else { prefix });
    name.push('_');
    proof {
        reveal_strlit("_");
    }
    assert(name@ == named + "_"@);
    let s = chars_of(share_id);
    let ghost base = name@;
    let mut j: usize = 0;
    let mut taken: usize = 0;
    assert(hex_digits(s@.take(0)) =~= Seq::<char>::empty()) by {
        reveal(Seq::filter);
    }
    while j < s.len() && taken < 8
        invariant
            j <= s@.len(),
            taken <= 8,
            taken == hex_digits(s@.take(j as int)).len(),
            name@ == base + hex_digits(s@.take(j as int)),
            hex_digits(s@.take(j as int)) == hex_digits(s@).take(taken as int),
        decreases s@.len() - j,
    {
        let c = s[j];
        assert(s@.take(j + 1) =~= s@.take(j as int).push(c));
        proof {
            s@.take(j as int).lemma_filter_push(c, hex_pred());
        }
        if is_hex_char(c) {
            name.push(c);
            taken = taken + 1;
        }
        j = j + 1;
        proof {
            lemma_hex_prefix(s@, j as int);
        }
    }
    proof {
        lemma_hex_prefix(s@, j as int);
        if taken < 8 {
            assert(s@.take(j as int) =~= s@);
        }
        let h = hex_digits(s@);
        let n: int = if h.len() < 8 { h.len() as int } else { 8 };
        assert(hex_digits(s@.take(j as int)) == h.take(n));
        assert(name@ == named + "_"@ + h.take(n));
    }
    string_from_chars(&name)
}

proof fn lemma_hex_prefix(s: Seq<char>, j: int)
    requires
        0 <= j <= s.len(),
    ensures
        hex_digits(s.take(j)) == hex_digits(s).take(hex_digits(s.take(j)).len() as int),
        hex_digits(s.take(j)).len() <= hex_digits(s).len(),
{
    broadcast use Seq::lemma_filter_push;
    broadcast use Seq::filter_distributes_over_add;
    assert(s =~= s.take(j) + s.skip(j));
    assert(hex_digits(s) == hex_digits(s.take(j)) + hex_digits(s.skip(j)));
    assert(hex_digits(s).take(hex_digits(s.take(j)).len() as int) =~= hex_digits(s.take(j)));
}

fn is_ascii_alnum_char(c: char) -> (b: bool)
    ensures
        b == is_ascii_alnum(c),
{
    ('a' <= c && c <= 'z') || ('A' <= c && c <= 'Z') || ('0' <= c && c <= '9')
}

fn is_hex_char(c: char) -> (b: bool)
    ensures
        b == is_ascii_hexdigit(c),
{
    ('0' <= c && c <= '9') || ('a' <= c && c <= 'f') || ('A' <= c && c <= 'F')
}

/// The name under which a received job is listed: that of the share it was
/// sent to, among `shares` (pairs of share id and printer name; the last
/// pair of an id counts), or `local shared printer`.
pub fn shared_printer_name(shares: &Vec<(String, String)>, share_id: &str) -> (s: String)
    ensures
        s@ == share_printer_name(shares@, share_id@),
{
    let mut i = shares.len();
    assert(shares@.take(i as int) =~= shares@);
    while i > 0
        invariant
            i <= shares@.len(),
            share_printer_name(shares@, share_id@) == share_printer_name(shares@.take(i as int), share_id@),
        decreases i,
    {
        assert(shares@.take(i as int).drop_last() =~= shares@.take(i - 1));
        if chars_equal(&chars_of(shares[i - 1].0.as_str()), &chars_of(share_id)) {
            return shares[i - 1].1.clone();
        }
        i = i - 1;
    }
    "local shared printer".to_string()
}

/// The printer name for `share_id` among `shares`, the last pair of that id
/// counting, or `local shared printer`.
pub open spec fn share_printer_name(shares: Seq<(String, String)>, share_id: Seq<char>) -> Seq<char>
    decreases shares.len(),
{
    if shares.len() == 0 {
        "local shared printer"@
    } else if shares.last().0@ == share_id {
        shares.last().1@
    } else {
        share_printer_name(shares.drop_last(), share_id)
    }
}

} // verus!
