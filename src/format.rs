use vstd::prelude::*;
use vstd::string::*;

use crate::domain::ExtractStats;

verus! {

pub open spec fn digit_chars() -> Seq<char> {
    seq!['0', '1', '2', '3', '4', '5', '6', '7', '8', '9']
}

/// The decimal digits of `n`, most significant first, without leading zeros.
pub open spec fn decimal(n: nat) -> Seq<char>
    decreases n,
{
    if n < 10 {
        seq![digit_chars()[n as int]]
    } else {
        decimal(n / 10).push(digit_chars()[(n % 10) as int])
    }
}

/// The short stats line: `dirs: D zip: Z extracted: E`.
pub open spec fn short_stats_line(s: ExtractStats) -> Seq<char> {
    seq!['d', 'i', 'r', 's', ':', ' '] + decimal(s.directories_scanned as nat) + seq![
        ' ',
        'z',
        'i',
        'p',
        ':',
        ' ',
    ] + decimal(s.zip_files_checked as nat) + seq![
        ' ',
        'e',
        'x',
        't',
        'r',
        'a',
        'c',
        't',
        'e',
        'd',
        ':',
        ' ',
    ] + decimal(s.extracted as nat)
}

/// The full stats line: `dirs: D safetensors: W zip: Z extracted: E`.
pub open spec fn full_stats_line(s: ExtractStats) -> Seq<char> {
    seq!['d', 'i', 'r', 's', ':', ' '] + decimal(s.directories_scanned as nat) + seq![
        ' ',
        's',
        'a',
        'f',
        'e',
        't',
        'e',
        'n',
        's',
        'o',
        'r',
        's',
        ':',
        ' ',
    ] + decimal(s.safetensors_directories as nat) + seq![' ', 'z', 'i', 'p', ':', ' '] + decimal(
        s.zip_files_checked as nat,
    ) + seq![' ', 'e', 'x', 't', 'r', 'a', 'c', 't', 'e', 'd', ':', ' '] + decimal(
        s.extracted as nat,
    )
}

/// Relies on `String`'s `FromIterator<char>`: the string holds the chars in order.
#[verifier::external_body]
pub(crate) fn string_from_chars(chars: &Vec<char>) -> (r: String)
    ensures
        r@ == chars@,
{
    chars.iter().collect()
}

/// Appends `extra` to `out`.
pub(crate) fn push_all(out: &mut Vec<char>, extra: &Vec<char>)
    ensures
        final(out)@ == old(out)@ + extra@,
{
    let mut i: usize = 0;
    while i < extra.len()
        invariant
            i <= extra@.len(),
            out@ == old(out)@ + extra@.take(i as int),
        decreases extra@.len() - i,
    {
        out.push(extra[i]);
        i = i + 1;
        assert(extra@.take(i as int) =~= extra@.take(i - 1).push(extra@[i - 1]));
    }
    assert(extra@.take(extra@.len() as int) =~= extra@);
}

/// Appends the chars of `s` to `out`.
pub(crate) fn push_str(out: &mut Vec<char>, s: &str)
    ensures
        final(out)@ == old(out)@ + s@,
{
    let n = s.unicode_len();
    let mut i: usize = 0;
    while i < n
        invariant
            n == s@.len(),
            i <= n,
            out@ == old(out)@ + s@.take(i as int),
        decreases n - i,
    {
        out.push(s.get_char(i));
        i = i + 1;
        assert(s@.take(i as int) =~= s@.take(i - 1).push(s@[i - 1]));
    }
    assert(s@.take(n as int) =~= s@);
}

/// Appends the decimal digits of `n` to `out`.
pub(crate) fn push_decimal(out: &mut Vec<char>, n: u64)
    ensures
        final(out)@ == old(out)@ + decimal(n as nat),
    decreases n,
{
    let digits = vec!['0', '1', '2', '3', '4', '5', '6', '7', '8', '9'];
    assert(digits@ =~= digit_chars());
    if n >= 10 {
        push_decimal(out, n / 10);
    }
    out.push(digits[(n % 10) as usize]);
    proof {
        if n < 10 {
            assert(n % 10 == n);
        }
        assert(decimal(n as nat) == if n < 10 {
            Seq::<char>::empty()
        } else {
            decimal((n / 10) as nat)
        }.push(digit_chars()[(n % 10) as int]));
    }
    assert(out@ =~= old(out)@ + decimal(n as nat));
}

/// The short stats line shown beside the spinner.
pub fn format_stats(stats: &ExtractStats) -> (r: String)
    ensures
        r@ == short_stats_line(*stats),
{
    let dirs = vec!['d', 'i', 'r', 's', ':', ' '];
    let zip = vec![' ', 'z', 'i', 'p', ':', ' '];
    let extracted = vec![' ', 'e', 'x', 't', 'r', 'a', 'c', 't', 'e', 'd', ':', ' '];
    let mut out: Vec<char> = Vec::new();
    push_all(&mut out, &dirs);
    push_decimal(&mut out, stats.directories_scanned);
    push_all(&mut out, &zip);
    push_decimal(&mut out, stats.zip_files_checked);
    push_all(&mut out, &extracted);
    push_decimal(&mut out, stats.extracted);
    assert(out@ =~= short_stats_line(*stats));
    string_from_chars(&out)
}

/// Appends the full stats line to `out`.
pub(crate) fn push_full_stats(out: &mut Vec<char>, stats: &ExtractStats)
    ensures
        final(out)@ == old(out)@ + full_stats_line(*stats),
{
    let dirs = vec!['d', 'i', 'r', 's', ':', ' '];
    let safetensors = vec![' ', 's', 'a', 'f', 'e', 't', 'e', 'n', 's', 'o', 'r', 's', ':', ' '];
    let zip = vec![' ', 'z', 'i', 'p', ':', ' '];
    let extracted = vec![' ', 'e', 'x', 't', 'r', 'a', 'c', 't', 'e', 'd', ':', ' '];
    push_all(out, &dirs);
    push_decimal(out, stats.directories_scanned);
    push_all(out, &safetensors);
    push_decimal(out, stats.safetensors_directories);
    push_all(out, &zip);
    push_decimal(out, stats.zip_files_checked);
    push_all(out, &extracted);
    push_decimal(out, stats.extracted);
    assert(out@ =~= old(out)@ + full_stats_line(*stats));
}

} // verus!
