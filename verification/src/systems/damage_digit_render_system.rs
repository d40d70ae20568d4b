use vstd::prelude::*;

verus! {

/// One digit of a damage number to draw: its offset from the number's centre, in half
/// digit widths, and the piece of the digit texture it shows (piece `piece` of `pieces`
/// equal strips).
#[derive(Copy, Clone, Debug, PartialEq, Eq, Structural)]
pub struct DigitQuad {
    pub offset_halves: i64,
    pub piece: u32,
    pub pieces: u32,
}

/// The decimal digits of a number, least significant first; none for 0.
pub open spec fn spec_digits_lsf(n: nat) -> Seq<nat>
    decreases n,
{
    if n == 0 {
        Seq::empty()
    } else {
        seq![n % 10] + spec_digits_lsf(n / 10)
    }
}

/// The quads of a damage number. A miss (0) shows the miss picture split in four quads
/// from left to right. Otherwise each digit, least significant first, from the right end
/// to the left, centred on the number.
pub open spec fn spec_damage_quads(damage: u32) -> Seq<DigitQuad> {
    if damage == 0 {
        Seq::new(4, |d: int| DigitQuad { offset_halves: (2 * d - 3) as i64, piece: d as u32, pieces: 4 })
    } else {
        let digits = spec_digits_lsf(damage as nat);
        Seq::new(
            digits.len(),
            |i: int| DigitQuad { offset_halves: (digits.len() - 1 - 2 * i) as i64, piece: digits[i] as u32, pieces: 10 },
        )
    }
}

spec fn spec_pow10(k: nat) -> nat
    decreases k,
{
    if k == 0 {
        1
    } else {
        10 * spec_pow10((k - 1) as nat)
    }
}

proof fn lemma_digits_lsf_len(n: nat, k: nat)
    requires
        n < spec_pow10(k),
    ensures
        spec_digits_lsf(n).len() <= k,
        forall|i: int| 0 <= i < spec_digits_lsf(n).len() ==> #[trigger] spec_digits_lsf(n)[i] < 10,
    decreases n,
{
    if n > 0 {
        let p = spec_pow10((k - 1) as nat);
        assert(k > 0);
        assert(n / 10 < p) by (nonlinear_arith)
            requires
                n < 10 * p,
        ;
        lemma_digits_lsf_len(n / 10, (k - 1) as nat);
        let rest = spec_digits_lsf(n / 10);
        assert forall|i: int| 0 <= i < spec_digits_lsf(n).len() implies #[trigger] spec_digits_lsf(n)[i] < 10 by {
            if i > 0 {
                assert(spec_digits_lsf(n)[i] == rest[i - 1]);
            }
        }
    }
}

/// The quads to draw a damage number with (see `spec_damage_quads`).
pub fn damage_digit_quads(damage: u32) -> (r: Vec<DigitQuad>)
    ensures
        r@ == spec_damage_quads(damage),
{
    let mut quads: Vec<DigitQuad> = Vec::new();
    if damage == 0 {
        let mut d: u32 = 0;
        while d < 4
            invariant
                d <= 4,
                quads@ =~= Seq::new(
                    d as nat,
                    |k: int| DigitQuad { offset_halves: (2 * k - 3) as i64, piece: k as u32, pieces: 4 },
                ),
            decreases 4 - d,
        {
            quads.push(DigitQuad { offset_halves: 2 * (d as i64) - 3, piece: d, pieces: 4 });
            d = d + 1;
        }
        return quads;
    }
    let ghost digits = spec_digits_lsf(damage as nat);
    proof {
        reveal_with_fuel(spec_pow10, 11);
        assert(spec_pow10(10) == 10_000_000_000);
        lemma_digits_lsf_len(damage as nat, 10);
    }
    let mut count: u64 = 0;
    let mut rest: u32 = damage;
    while rest > 0
        invariant
            digits == spec_digits_lsf(damage as nat),
            count + spec_digits_lsf(rest as nat).len() == digits.len(),
            digits.len() <= 10,
        decreases rest,
    {
        rest = rest / 10;
        count = count + 1;
    }
    let mut rest: u32 = damage;
    let mut i: u64 = 0;
    while rest > 0
        invariant
            digits == spec_digits_lsf(damage as nat),
            count == digits.len(),
            count <= 10,
            i + spec_digits_lsf(rest as nat).len() == count,
            digits == digits.take(i as int) + spec_digits_lsf(rest as nat),
            quads@ =~= Seq::new(
                i as nat,
                |k: int| DigitQuad { offset_halves: (count - 1 - 2 * k) as i64, piece: digits[k] as u32, pieces: 10 },
            ),
        decreases rest,
    {
        let ghost tail = spec_digits_lsf(rest as nat);
        assert(tail == seq![(rest % 10) as nat] + spec_digits_lsf((rest / 10) as nat));
        assert(digits[i as int] == tail[0]);
        quads.push(
            DigitQuad { offset_halves: (count as i64) - 1 - 2 * (i as i64), piece: rest % 10, pieces: 10 },
        );
        assert(digits.take(i + 1) =~= digits.take(i as int).push(tail[0]));
        assert(digits =~= digits.take(i + 1) + spec_digits_lsf((rest / 10) as nat));
        rest = rest / 10;
        i = i + 1;
    }
    assert(i == count);
    quads
}

/// The number that decimal digits stand for, least significant first.
pub open spec fn spec_digits_number(digits: Seq<nat>) -> nat
    decreases digits.len(),
{
    if digits.len() == 0 {
        0
    } else {
        digits[0] + 10 * spec_digits_number(digits.drop_first())
    }
}

/// The digits a damage number is drawn with stand for the damage: read back, least
/// significant first, they give the number again.
pub proof fn law_damage_digits_read_back(n: nat)
    ensures
        spec_digits_number(spec_digits_lsf(n)) == n,
    decreases n,
{
    if n > 0 {
        law_damage_digits_read_back(n / 10);
        let ds = spec_digits_lsf(n);
        assert(ds.drop_first() =~= spec_digits_lsf(n / 10));
        assert(n % 10 + 10 * (n / 10) == n);
    }
}

} // verus!
