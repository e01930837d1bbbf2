//! Bonding-curve bootstrap: prices the first liquidity deposit against
//! virtual reserves, and is inert once the pool is active.

use vstd::prelude::*;

use crate::math::{lemma_floor_div_bounds, lemma_floor_div_vs_mul};

verus! {

/// Virtual sol reserve a fresh bootstrap curve starts from.
pub const DEFAULT_INITIAL_VIRTUAL_SOL_RESERVE: u64 = 30_000_000_000;

/// Virtual token reserve a fresh bootstrap curve starts from.
pub const DEFAULT_INITIAL_VIRTUAL_TOKEN_RESERVE: u64 = 1_073_000_000_000_000;

/// Ceiling on the real sol balance the bootstrap curve may accumulate.
pub const DEFAULT_SOL_BALANCE: u64 = 85_000_000_000;

/// Bonding-curve state: virtual reserves shape the price; real balances are
/// what the curve has actually taken in and can still pay out.
#[derive(Clone, Copy, Debug, PartialEq, Eq, Structural)]
pub struct Amm {
    /// Non-custodial offset added to the real sol balance when pricing.
    pub virtual_sol_reserve: u64,
    /// Virtual token side of the price curve.
    pub virtual_token_reserve: u64,
    /// Sol actually taken in by buys, never above `max_sol_balance`.
    pub real_sol_balance: u64,
    /// Tokens the curve can still pay out to buys.
    pub real_token_balance: u64,
    /// Ceiling on `real_sol_balance`.
    pub max_sol_balance: u64,
}

/// Outcome of a buy against the bootstrap curve.
#[derive(Clone, Copy, Debug, PartialEq, Eq, Structural)]
pub struct BuyResult {
    /// Sol actually consumed, after clamping to the curve's capacity.
    pub sol_amount: u64,
    /// Tokens paid out for it.
    pub token_amount: u64,
}

/// Outcome of a sell against the bootstrap curve.
#[derive(Clone, Copy, Debug, PartialEq, Eq, Structural)]
pub struct SellResult {
    /// Sol paid out, after clamping to what the curve holds.
    pub sol_amount: u64,
    /// Tokens actually consumed.
    pub token_amount: u64,
}

/// The bootstrap curve a new pool starts from.
pub open spec fn spec_initial_amm() -> Amm {
    Amm {
        virtual_sol_reserve: DEFAULT_INITIAL_VIRTUAL_SOL_RESERVE,
        virtual_token_reserve: DEFAULT_INITIAL_VIRTUAL_TOKEN_RESERVE,
        real_sol_balance: 0,
        real_token_balance: DEFAULT_INITIAL_VIRTUAL_TOKEN_RESERVE,
        max_sol_balance: DEFAULT_SOL_BALANCE,
    }
}

/// Sol a buy of `sol_in` actually consumes: clamped so the real sol balance
/// never exceeds its ceiling.
pub open spec fn spec_buy_sol_amount(amm: Amm, sol_in: int) -> int {
    let capacity = amm.max_sol_balance - amm.real_sol_balance;
    if sol_in <= capacity {
        sol_in
    } else {
        capacity
    }
}

/// Tokens a buy of `sol_in` pays out: the constant-product output against
/// the virtual-plus-real sol side, clamped to the tokens the curve holds.
pub open spec fn spec_buy_token_amount(amm: Amm, sol_in: int) -> int {
    let s = spec_buy_sol_amount(amm, sol_in);
    let priced = (amm.virtual_token_reserve * s)
        / (amm.virtual_sol_reserve + amm.real_sol_balance + s);
    if priced <= amm.real_token_balance {
        priced
    } else {
        amm.real_token_balance as int
    }
}

/// A buy goes through only when the curve has sol capacity left and both the
/// consumed and the paid amount are positive.
pub open spec fn spec_buy_succeeds(amm: Amm, sol_in: int) -> bool {
    &&& amm.real_sol_balance < amm.max_sol_balance
    &&& spec_buy_sol_amount(amm, sol_in) > 0
    &&& spec_buy_token_amount(amm, sol_in) > 0
}

/// Sol a sell of `token_in` pays out: the constant-product output of the
/// virtual-plus-real sol side, clamped to the sol the curve holds.
pub open spec fn spec_sell_sol_amount(amm: Amm, token_in: int) -> int {
    let priced = ((amm.virtual_sol_reserve + amm.real_sol_balance) * token_in)
        / (amm.virtual_token_reserve + token_in);
    if priced <= amm.real_sol_balance {
        priced
    } else {
        amm.real_sol_balance as int
    }
}

/// A sell goes through only when it consumes tokens and pays out sol.
pub open spec fn spec_sell_succeeds(amm: Amm, token_in: int) -> bool {
    token_in > 0 && spec_sell_sol_amount(amm, token_in) > 0
}

impl Amm {
    /// A fresh bootstrap curve: no sol taken in yet.
    pub fn new(
        virtual_sol_reserve: u64,
        virtual_token_reserve: u64,
        max_sol_balance: u64,
        real_token_balance: u64,
    ) -> (amm: Amm)
        ensures
            amm == (Amm {
                virtual_sol_reserve,
                virtual_token_reserve,
                real_sol_balance: 0,
                real_token_balance,
                max_sol_balance,
            }),
    {
        Amm {
            virtual_sol_reserve,
            virtual_token_reserve,
            real_sol_balance: 0,
            real_token_balance,
            max_sol_balance,
        }
    }

    /// Applies a buy of `sol_in` to the curve. On success the consumed sol
    /// and paid tokens move between the real balances and the virtual token
    /// reserve shrinks by what was paid; a degenerate buy leaves the curve
    /// untouched.
    pub fn apply_buy(&mut self, sol_in: u64) -> (r: Option<BuyResult>)
        ensures
            r is None <==> !spec_buy_succeeds(*old(self), sol_in as int),
            r is None ==> *final(self) == *old(self),
            r matches Some(b) ==> {
                &&& b.sol_amount as int == spec_buy_sol_amount(*old(self), sol_in as int)
                &&& b.token_amount as int == spec_buy_token_amount(*old(self), sol_in as int)
                &&& *final(self) == (Amm {
                    virtual_token_reserve: (old(self).virtual_token_reserve - b.token_amount) as u64,
                    real_sol_balance: (old(self).real_sol_balance + b.sol_amount) as u64,
                    real_token_balance: (old(self).real_token_balance - b.token_amount) as u64,
                    ..*old(self)
                })
            },
    {
        if self.real_sol_balance >= self.max_sol_balance {
            return None;
        }
        let capacity = self.max_sol_balance - self.real_sol_balance;
        let sol_amount = if sol_in <= capacity {
            sol_in
        } else {
            capacity
        };
        if sol_amount == 0 {
            return None;
        }
        proof {
            assert((self.virtual_token_reserve as int) * (sol_amount as int)
                <= (0xFFFF_FFFF_FFFF_FFFFu64 as int) * (0xFFFF_FFFF_FFFF_FFFFu64 as int)) by (nonlinear_arith)
                requires
                    0 <= self.virtual_token_reserve as int <= 0xFFFF_FFFF_FFFF_FFFFu64 as int,
                    0 <= sol_amount as int <= 0xFFFF_FFFF_FFFF_FFFFu64 as int,
            ;
        }
        let numerator = (self.virtual_token_reserve as u128) * (sol_amount as u128);
        let denominator = (self.virtual_sol_reserve as u128) + (self.real_sol_balance as u128)
            + (sol_amount as u128);
        let priced = numerator / denominator;
        proof {
            lemma_floor_div_vs_mul(numerator as int, denominator as int, self.virtual_token_reserve as int);
            assert((numerator as int) < (self.virtual_token_reserve as int + 1) * (denominator as int)) by (nonlinear_arith)
                requires
                    numerator as int == (self.virtual_token_reserve as int) * (sol_amount as int),
                    denominator as int >= sol_amount as int,
                    sol_amount as int >= 1,
                    self.virtual_token_reserve as int >= 0,
            ;
        }
        let token_amount = if priced <= self.real_token_balance as u128 {
            priced as u64
        } else {
            self.real_token_balance
        };
        if token_amount == 0 {
            return None;
        }
        self.virtual_token_reserve = self.virtual_token_reserve - token_amount;
        self.real_sol_balance = self.real_sol_balance + sol_amount;
        self.real_token_balance = self.real_token_balance - token_amount;
        Some(BuyResult { sol_amount, token_amount })
    }

    /// Applies a sell of `token_in` to the curve. On success the consumed
    /// tokens join both the real balance and the virtual reserve, and the
    /// paid sol leaves the real balance; a degenerate sell leaves the curve
    /// untouched.
    pub fn apply_sell(&mut self, token_in: u64) -> (r: Option<SellResult>)
        requires
            old(self).virtual_sol_reserve + old(self).real_sol_balance <= u64::MAX,
            old(self).virtual_token_reserve + token_in <= u64::MAX,
            old(self).real_token_balance + token_in <= u64::MAX,
        ensures
            r is None <==> !spec_sell_succeeds(*old(self), token_in as int),
            r is None ==> *final(self) == *old(self),
            r matches Some(s) ==> {
                &&& s.token_amount == token_in
                &&& s.sol_amount as int == spec_sell_sol_amount(*old(self), token_in as int)
                &&& *final(self) == (Amm {
                    virtual_token_reserve: (old(self).virtual_token_reserve + token_in) as u64,
                    real_sol_balance: (old(self).real_sol_balance - s.sol_amount) as u64,
                    real_token_balance: (old(self).real_token_balance + token_in) as u64,
                    ..*old(self)
                })
            },
    {
        if token_in == 0 {
            return None;
        }
        proof {
            assert((self.virtual_sol_reserve as int + self.real_sol_balance as int) * (token_in as int)
                <= (0xFFFF_FFFF_FFFF_FFFFu64 as int) * (0xFFFF_FFFF_FFFF_FFFFu64 as int)) by (nonlinear_arith)
                requires
                    0 <= self.virtual_sol_reserve as int + self.real_sol_balance as int
                        <= 0xFFFF_FFFF_FFFF_FFFFu64 as int,
                    0 <= token_in as int <= 0xFFFF_FFFF_FFFF_FFFFu64 as int,
            ;
        }
        let numerator = ((self.virtual_sol_reserve as u128) + (self.real_sol_balance as u128))
            * (token_in as u128);
        let denominator = (self.virtual_token_reserve as u128) + (token_in as u128);
        let priced = numerator / denominator;
        proof {
            lemma_floor_div_bounds(numerator as int, denominator as int);
        }
        let sol_amount = if priced <= self.real_sol_balance as u128 {
            proof {
                lemma_floor_div_vs_mul(numerator as int, denominator as int, self.real_sol_balance as int);
            }
            priced as u64
        } else {
            self.real_sol_balance
        };
        if sol_amount == 0 {
            return None;
        }
        self.virtual_token_reserve = self.virtual_token_reserve + token_in;
        self.real_sol_balance = self.real_sol_balance - sol_amount;
        self.real_token_balance = self.real_token_balance + token_in;
        Some(SellResult { sol_amount, token_amount: token_in })
    }
}

} // verus!
