//! Score and multiplier.

use vstd::prelude::*;
use vstd::arithmetic::div_mod::{lemma_add_mod_noop, lemma_mul_mod_noop_left};
use crate::common::calibrations::{MAX_SCORE, SCORE_BOMB, SCORE_ENEMY};

verus! {

/// The score depends on the enemies absorbed and the bombs exploded. Each
/// of them is worth more than the one before, as the multiplier grows.
#[derive(Clone, Copy, Debug, PartialEq, Eq)]
pub struct Scores {
    pub current: u32,
    pub multiplier: u32,
    pub high: u32,
}

/// `n` as a 32-bit counter that starts over when it is full.
pub open spec fn wrapped(n: int) -> u32 {
    (n % 0x1_0000_0000) as u32
}

/// The multiplier after `bombs` explosions and `enemies` absorptions.
pub open spec fn multiplier_after(multiplier: u32, enemies: u32, bombs: u32) -> u32 {
    wrapped(multiplier + SCORE_BOMB * bombs + SCORE_ENEMY * enemies)
}

/// The points gained by `bombs` explosions followed by `enemies`
/// absorptions, counted without bound. The k-th explosion is worth ten
/// times the multiplier it meets, the k-th absorption the multiplier it
/// meets.
pub open spec fn points(multiplier: u32, enemies: u32, bombs: u32) -> int {
    10 * bombs * multiplier + 50 * bombs * (bombs - 1) + enemies * (multiplier + 10 * bombs)
        + enemies * (enemies - 1) / 2
}

/// The score after `bombs` explosions and `enemies` absorptions: counted in
/// 32 bits, then capped.
pub open spec fn score_after(current: u32, multiplier: u32, enemies: u32, bombs: u32) -> u32 {
    let counted = wrapped(current + points(multiplier, enemies, bombs));
    if counted > MAX_SCORE {
        MAX_SCORE
    } else {
        counted
    }
}

/// Adding in 32 bits is adding, then wrapping.
proof fn lemma_wrapped_add(a: int, b: u32)
    requires
        a >= 0,
    ensures
        wrapped(a).wrapping_add(b) == wrapped(a + b),
{
    lemma_add_mod_noop(a, b as int, 0x1_0000_0000);
    assert((b as int) % 0x1_0000_0000 == b);
    assert((a % 0x1_0000_0000 + b) % 0x1_0000_0000 == (a + b) % 0x1_0000_0000);
}

/// Adding two wrapped numbers is adding, then wrapping.
proof fn lemma_wrapped_sum(a: int, b: int)
    requires
        a >= 0,
        b >= 0,
    ensures
        wrapped(a).wrapping_add(wrapped(b)) == wrapped(a + b),
{
    lemma_add_mod_noop(a, b, 0x1_0000_0000);
}

/// Multiplying a wrapped number by ten is multiplying, then wrapping.
proof fn lemma_wrapped_times_ten(a: int)
    requires
        a >= 0,
    ensures
        wrapped(a).wrapping_mul(10) == wrapped(10 * a),
{
    lemma_mul_mod_noop_left(a, 10, 0x1_0000_0000);
    assert(a * 10 == 10 * a);
}

/// The number that four stored bytes stand for, the lowest byte first.
pub open spec fn stored_score(bytes: [u8; 4]) -> u32 {
    (bytes[0] + bytes[1] * 0x100 + bytes[2] * 0x1_0000 + bytes[3] * 0x100_0000) as u32
}

/// Byte `k` of a number, counted from the lowest.
pub open spec fn score_byte(score: u32, k: nat) -> u8 {
    if k == 0 {
        (score % 0x100) as u8
    } else if k == 1 {
        (score / 0x100 % 0x100) as u8
    } else if k == 2 {
        (score / 0x1_0000 % 0x100) as u8
    } else {
        (score / 0x100_0000) as u8
    }
}

/// Storage: what is stored for a score is read back as that score.
pub proof fn lemma_stored_score_round_trip(score: u32)
    ensures
        stored_score(
            [score_byte(score, 0), score_byte(score, 1), score_byte(score, 2), score_byte(score, 3)],
        ) == score,
{
    let bytes = [
        score_byte(score, 0),
        score_byte(score, 1),
        score_byte(score, 2),
        score_byte(score, 3),
    ];
    assert(bytes[0] == score_byte(score, 0));
    assert(bytes[1] == score_byte(score, 1));
    assert(bytes[2] == score_byte(score, 2));
    assert(bytes[3] == score_byte(score, 3));
}

impl Scores {
    /// The best score that the host has read from its store: four bytes,
    /// the lowest first. An empty store reads as zero.
    pub fn get_high_score(stored: [u8; 4]) -> (high: u32)
        ensures
            high == stored_score(stored),
    {
        stored[0] as u32 + stored[1] as u32 * 0x100 + stored[2] as u32 * 0x1_0000 + stored[3] as u32
            * 0x100_0000
    }

    /// The four bytes for the host to store as the best score, the lowest
    /// first.
    pub fn save_high_score(&self, high_score: u32) -> (bytes: [u8; 4])
        ensures
            bytes[0] == score_byte(high_score, 0),
            bytes[1] == score_byte(high_score, 1),
            bytes[2] == score_byte(high_score, 2),
            bytes[3] == score_byte(high_score, 3),
            stored_score(bytes) == high_score,
    {
        [
            (high_score % 0x100) as u8,
            (high_score / 0x100 % 0x100) as u8,
            (high_score / 0x1_0000 % 0x100) as u8,
            (high_score / 0x100_0000) as u8,
        ]
    }

    /// A fresh score beside the best score known so far.
    pub fn new(high: u32) -> (scores: Scores)
        ensures
            scores == (Scores { current: 0, multiplier: 1, high }),
    {
        Scores { current: 0, multiplier: 1, high }
    }

    /// Updates the score for the enemies absorbed and the bombs exploded in
    /// the current frame, bombs first.
    pub fn update(&mut self, enemies_killed: u32, bombs_exploded: u32)
        ensures
            final(self).current == score_after(
                old(self).current,
                old(self).multiplier,
                enemies_killed,
                bombs_exploded,
            ),
            final(self).multiplier == multiplier_after(
                old(self).multiplier,
                enemies_killed,
                bombs_exploded,
            ),
            final(self).high == old(self).high,
            final(self).current <= MAX_SCORE,
    {
        let ghost c0 = self.current as int;
        let ghost m0 = self.multiplier as int;
        let mut b: u32 = 0;
        while b < bombs_exploded
            invariant
                b <= bombs_exploded,
                c0 == old(self).current,
                m0 == old(self).multiplier,
                self.high == old(self).high,
                self.multiplier == wrapped(m0 + 10 * b),
                self.current == wrapped(c0 + 10 * b * m0 + 50 * b * (b - 1)),
            decreases bombs_exploded - b,
        {
            proof {
                let worth = m0 + 10 * b;
                let so_far = c0 + 10 * b * m0 + 50 * b * (b - 1);
                assert(so_far >= 0) by (nonlinear_arith)
                    requires
                        so_far == c0 + 10 * b * m0 + 50 * b * (b - 1),
                        c0 >= 0,
                        m0 >= 0,
                        b >= 0,
                ;
                lemma_wrapped_times_ten(worth);
                lemma_wrapped_sum(so_far, 10 * worth);
                lemma_wrapped_add(worth, 10);
                assert(so_far + 10 * worth == c0 + 10 * (b + 1) * m0 + 50 * (b + 1) * ((b + 1) - 1))
                    by (nonlinear_arith)
                    requires
                        so_far == c0 + 10 * b * m0 + 50 * b * (b - 1),
                        worth == m0 + 10 * b,
                ;
            }
            self.current = self.current.wrapping_add(self.multiplier.wrapping_mul(SCORE_BOMB));
            self.multiplier = self.multiplier.wrapping_add(SCORE_BOMB);
            b += 1;
        }
        let ghost m1 = m0 + 10 * bombs_exploded;
        let ghost c1 = c0 + 10 * bombs_exploded * m0 + 50 * bombs_exploded * (bombs_exploded - 1);
        let mut e: u32 = 0;
        while e < enemies_killed
            invariant
                e <= enemies_killed,
                c0 >= 0,
                m0 >= 0,
                m1 == m0 + 10 * bombs_exploded,
                c1 == c0 + 10 * bombs_exploded * m0 + 50 * bombs_exploded * (bombs_exploded - 1),
                self.high == old(self).high,
                self.multiplier == wrapped(m1 + e),
                self.current == wrapped(c1 + e * m1 + e * (e - 1) / 2),
            decreases enemies_killed - e,
        {
            proof {
                let worth = m1 + e;
                let so_far = c1 + e * m1 + e * (e - 1) / 2;
                assert(c1 >= 0) by (nonlinear_arith)
                    requires
                        c1 == c0 + 10 * bombs_exploded * m0 + 50 * bombs_exploded * (bombs_exploded
                            - 1),
                        c0 >= 0,
                        m0 >= 0,
                        bombs_exploded >= 0,
                ;
                assert(e * m1 >= 0 && e * (e - 1) >= 0) by (nonlinear_arith)
                    requires
                        e >= 0,
                        m1 >= 0,
                ;
                lemma_wrapped_sum(so_far, worth);
                lemma_wrapped_add(worth, 1);
                assert((e + 1) * ((e + 1) - 1) / 2 == e * (e - 1) / 2 + e) by {
                    assert((e + 1) * ((e + 1) - 1) == e * (e - 1) + 2 * e) by (nonlinear_arith);
                }
                assert(so_far + worth == c1 + (e + 1) * m1 + (e + 1) * ((e + 1) - 1) / 2)
                    by (nonlinear_arith)
                    requires
                        so_far == c1 + e * m1 + e * (e - 1) / 2,
                        worth == m1 + e,
                        (e + 1) * ((e + 1) - 1) / 2 == e * (e - 1) / 2 + e,
                ;
            }
            self.current = self.current.wrapping_add(self.multiplier);
            self.multiplier = self.multiplier.wrapping_add(SCORE_ENEMY);
            e += 1;
        }
        if self.current > MAX_SCORE {
            self.current = MAX_SCORE;
        }
    }
}

} // verus!
