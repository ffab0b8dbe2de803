use vstd::prelude::*;

verus! {

/// Indices of the entries that are `true`, in increasing order.
pub open spec fn reached(s: Seq<bool>) -> Seq<usize>
    decreases s.len(),
{
    if s.len() == 0 {
        Seq::empty()
    } else if s.last() {
        reached(s.drop_last()).push((s.len() - 1) as usize)
    } else {
        reached(s.drop_last())
    }
}

/// Number of entries that are `true`.
pub open spec fn count_reached(s: Seq<bool>) -> nat {
    reached(s).len()
}

/// Every star within reach of the ship is picked up and adds one point.
///
/// `in_reach[i]` tells whether star `i` touches the ship this tick. Returns
/// the new score and the indices of the stars to remove, in increasing order.
pub fn collect_stars(score: u32, in_reach: &Vec<bool>) -> (r: (u32, Vec<usize>))
    requires
        score as nat + count_reached(in_reach@) <= u32::MAX,
    ensures
        r.0 as nat == score as nat + count_reached(in_reach@),
        r.1@ == reached(in_reach@),
{
    let mut total: u32 = score;
    let mut collected: Vec<usize> = Vec::new();
    let mut i: usize = 0;
    while i < in_reach.len()
        invariant
            i <= in_reach.len(),
            collected@ == reached(in_reach@.take(i as int)),
            total as nat == score as nat + collected@.len(),
            score as nat + count_reached(in_reach@) <= u32::MAX,
        decreases in_reach.len() - i,
    {
        proof {
            assert(in_reach@.take(i as int + 1).drop_last() == in_reach@.take(i as int));
            lemma_reached_prefix_len(in_reach@, i as int + 1);
        }
        if in_reach[i] {
            collected.push(i);
            total = total + 1;
        }
        i = i + 1;
    }
    assert(in_reach@.take(i as int) == in_reach@);
    (total, collected)
}

/// A prefix never reaches more entries than the whole sequence.
proof fn lemma_reached_prefix_len(s: Seq<bool>, n: int)
    requires
        0 <= n <= s.len(),
    ensures
        reached(s.take(n)).len() <= reached(s).len(),
    decreases s.len(),
{
    if n < s.len() {
        assert(s.drop_last().take(n) == s.take(n));
        lemma_reached_prefix_len(s.drop_last(), n);
    } else {
        assert(s.take(n) == s);
    }
}

/// The game restarts as soon as any asteroid hits the ship.
///
/// `hits[i]` tells whether asteroid `i` overlaps the ship this tick.
pub fn check_collision(hits: &Vec<bool>) -> (r: bool)
    ensures
        r == exists|i: int| 0 <= i < hits@.len() && hits@[i],
{
    let mut i: usize = 0;
    while i < hits.len()
        invariant
            i <= hits.len(),
            forall|j: int| 0 <= j < i ==> !hits@[j],
        decreases hits.len() - i,
    {
        if hits[i] {
            return true;
        }
        i = i + 1;
    }
    false
}

/// The character of a decimal digit.
pub open spec fn digit_char(d: nat) -> char {
    ((48 + d % 10) as u8) as char
}

/// The decimal digits of `n`, most significant first, without leading zeros.
pub open spec fn decimal(n: nat) -> Seq<char>
    decreases n,
{
    if n < 10 {
        seq![digit_char(n)]
    } else {
        decimal(n / 10).push(digit_char(n % 10))
    }
}

/// What the scoreboard reads at the given score.
pub open spec fn score_label(n: nat) -> Seq<char> {
    seq!['S', 'c', 'o', 'r', 'e', ':', ' '] + decimal(n)
}

/// Relies on String's FromIterator<char>: the string holds the characters
/// in the order given.
#[verifier::external_body]
fn string_of_chars(c: &Vec<char>) -> (r: String)
    ensures
        r@ == c@,
{
    c.iter().collect()
}

fn digit(d: u32) -> (r: char)
    requires
        d < 10,
    ensures
        r == digit_char(d as nat),
{
    ((48 + d) as u8) as char
}

/// The decimal digits of `n`.
pub fn decimal_digits(n: u32) -> (r: Vec<char>)
    ensures
        r@ == decimal(n as nat),
{
    let mut digits: Vec<char> = Vec::new();
    digits.push(digit(n % 10));
    let mut m: u32 = n / 10;
    while m > 0
        invariant
            m > 0 ==> decimal(n as nat) == decimal(m as nat) + digits@,
            m == 0 ==> digits@ == decimal(n as nat),
        decreases m,
    {
        let d = digit(m % 10);
        let ghost old_digits = digits@;
        digits.insert(0, d);
        proof {
            if m >= 10 {
                assert(decimal(m as nat) == decimal((m / 10) as nat).push(digit_char((m % 10) as nat)));
                assert(decimal(m as nat) + old_digits == decimal((m / 10) as nat) + digits@);
            } else {
                assert(decimal(m as nat) + old_digits == digits@);
            }
        }
        m = m / 10;
    }
    digits
}

/// The scoreboard text, "Score: " followed by the score in decimal.
pub fn score_text(score: u32) -> (r: String)
    ensures
        r@ == score_label(score as nat),
{
    let mut chars: Vec<char> = vec!['S', 'c', 'o', 'r', 'e', ':', ' '];
    let mut digits = decimal_digits(score);
    chars.append(&mut digits);
    string_of_chars(&chars)
}

} // verus!
