//! Rate account state: the ratio applied by splits and conversions.
use vstd::prelude::*;
use crate::bytes::{Pubkey, le64};
use crate::constants::{PROGRAM_ID, SEED_RATE_ACCOUNT};
use crate::error::ProgramError;
use crate::modules::account_checks::{AccountView, verify_owner};
use crate::utils::{create_program_address, address_result_view, spec_checked_create_program_address, seed_views};
use crate::state::discriminator::{Discriminator, AccountSerialize, AccountDeserialize, SecurityTokenDiscriminators};

verus! {

/// Rounding direction of a rate.
#[derive(Clone, Copy, Debug, PartialEq, Eq, Structural)]
pub enum Rounding {
    /// Round results up.
    Up,
    /// Round results down.
    Down,
}

/// The rounding named by `v` (0 is up, 1 is down); other bytes are invalid account data.
pub open spec fn spec_rounding_from_u8(v: u8) -> Result<Rounding, ProgramError> {
    if v == 0 {
        Ok(Rounding::Up)
    } else if v == 1 {
        Ok(Rounding::Down)
    } else {
        Err(ProgramError::InvalidAccountData)
    }
}

impl Rounding {
    /// The byte of a rounding direction.
    pub open spec fn spec_to_u8(self) -> u8 {
        match self {
            Rounding::Up => 0,
            Rounding::Down => 1,
        }
    }

    /// The byte of this rounding direction.
    pub fn to_u8(&self) -> (r: u8)
        ensures
            r == self.spec_to_u8(),
    {
        match self {
            Rounding::Up => 0,
            Rounding::Down => 1,
        }
    }

    /// Decodes a rounding byte.
    pub fn try_from(v: u8) -> (r: Result<Rounding, ProgramError>)
        ensures
            r == spec_rounding_from_u8(v),
    {
        match v {
            0 => Ok(Rounding::Up),
            1 => Ok(Rounding::Down),
            _ => Err(ProgramError::InvalidAccountData),
        }
    }
}

/// Decoding the byte of a rounding gives it back.
pub proof fn lemma_rounding_roundtrip(r: Rounding, b: u8)
    ensures
        spec_rounding_from_u8(r.spec_to_u8()) == Ok::<Rounding, ProgramError>(r),
        spec_rounding_from_u8(b) matches Ok(q) ==> q.spec_to_u8() == b,
{
}

/// `n / d` rounded towards zero or away from it.
pub open spec fn spec_div_round(n: int, d: int, rounding: Rounding) -> int {
    match rounding {
        Rounding::Down => n / d,
        Rounding::Up => if n % d == 0 { n / d } else { n / d + 1 },
    }
}

/// `10` to the power `n`.
pub open spec fn pow10(n: nat) -> nat
    decreases n,
{
    if n == 0 { 1 } else { 10 * pow10((n - 1) as nat) }
}

/// Configuration data stored per rate account
#[derive(Clone, Copy, Debug, PartialEq, Eq, Structural)]
pub struct Rate {
    /// Rounding direction (Up or Down)
    pub rounding: Rounding,
    /// Rate numerator
    pub numerator: u8,
    /// Rate denominator
    pub denominator: u8,
    /// Bump seed used for PDA derivation
    pub bump: u8,
}

impl Rate {
    /// Serialized size of the account data (discriminator + rounding enum + numerator + denominator + bump)
    pub const LEN: usize = 5;

    /// A rate with non-zero terms.
    pub open spec fn valid(self) -> bool {
        self.denominator != 0 && self.numerator != 0
    }

    /// The rate applied to `amount`, or the error.
    pub open spec fn spec_calculate(self, amount: u64) -> Result<u64, ProgramError> {
        let product = amount * self.numerator;
        if product > u64::MAX {
            Err(ProgramError::ArithmeticOverflow)
        } else if self.rounding == Rounding::Down && self.denominator == 0 {
            Err(ProgramError::ArithmeticOverflow)
        } else {
            Ok(spec_div_round(product, self.denominator as int, self.rounding) as u64)
        }
    }

    /// The amount of the target token for `amount_from` of the source token, scaling by
    /// the difference of the decimals, or the error.
    pub open spec fn spec_convert(self, amount_from: u64, decimals_from: u8, decimals_to: u8) -> Result<u64, ProgramError> {
        if amount_from == 0 {
            Ok(0)
        } else {
            let delta: nat = if decimals_to >= decimals_from {
                (decimals_to - decimals_from) as nat
            } else {
                (decimals_from - decimals_to) as nat
            };
            if pow10(delta) > u64::MAX {
                Err(ProgramError::ArithmeticOverflow)
            } else {
                let (n, d) = if decimals_to >= decimals_from {
                    (amount_from * self.numerator * pow10(delta), self.denominator as int)
                } else {
                    (amount_from * self.numerator, self.denominator * pow10(delta))
                };
                if n > u128::MAX {
                    Err(ProgramError::ArithmeticOverflow)
                } else if self.rounding == Rounding::Down && d == 0 {
                    Err(ProgramError::ArithmeticOverflow)
                } else if spec_div_round(n, d, self.rounding) > u64::MAX {
                    Err(ProgramError::ArithmeticOverflow)
                } else {
                    Ok(spec_div_round(n, d, self.rounding) as u64)
                }
            }
        }
    }

    /// The serialized body: rounding, numerator, denominator, bump.
    pub open spec fn spec_body(self) -> Seq<u8> {
        seq![self.rounding.spec_to_u8(), self.numerator, self.denominator, self.bump]
    }

    /// The rate whose body is `data`: exactly four bytes with a known rounding.
    pub open spec fn spec_parse_body(data: Seq<u8>) -> Result<Rate, ProgramError> {
        if data.len() != 4 {
            Err(ProgramError::InvalidAccountData)
        } else {
            match spec_rounding_from_u8(data[0]) {
                Err(e) => Err(e),
                Ok(rounding) => Ok(Rate { rounding, numerator: data[1], denominator: data[2], bump: data[3] }),
            }
        }
    }

    /// Create a new Rate
    pub fn new(rounding: Rounding, numerator: u8, denominator: u8, bump: u8) -> (r: Result<Rate, ProgramError>)
        ensures
            r == (if numerator != 0 && denominator != 0 {
                Ok(Rate { rounding, numerator, denominator, bump })
            } else {
                Err(ProgramError::InvalidAccountData)
            }),
    {
        let rate = Rate { rounding, numerator, denominator, bump };
        rate.validate()?;
        Ok(rate)
    }

    /// Update Rate data; the bump is kept.
    pub fn update(&mut self, rounding: Rounding, numerator: u8, denominator: u8) -> (r: Result<(), ProgramError>)
        ensures
            *final(self) == (Rate { rounding, numerator, denominator, bump: old(self).bump }),
            r is Ok <==> (numerator != 0 && denominator != 0),
            r is Err ==> r == Err::<(), ProgramError>(ProgramError::InvalidAccountData),
    {
        self.rounding = rounding;
        self.numerator = numerator;
        self.denominator = denominator;
        self.validate()?;
        Ok(())
    }

    /// Validate the Rate account data
    pub fn validate(&self) -> (r: Result<(), ProgramError>)
        ensures
            r is Ok <==> self.valid(),
            r is Err ==> r == Err::<(), ProgramError>(ProgramError::InvalidAccountData),
    {
        if self.denominator == 0 || self.numerator == 0 {
            return Err(ProgramError::InvalidAccountData);
        }
        Ok(())
    }

    /// Calculate the rate applied to the given amount
    pub fn calculate(&self, amount: u64) -> (r: Result<u64, ProgramError>)
        requires
            self.rounding == Rounding::Up && amount * self.numerator <= u64::MAX ==> self.denominator != 0,
        ensures
            r == self.spec_calculate(amount),
    {
        let product = match amount.checked_mul(self.numerator as u64) {
            Some(p) => p,
            None => return Err(ProgramError::ArithmeticOverflow),
        };
        match self.rounding {
            Rounding::Up => {
                let d = self.denominator as u64;
                Ok(div_ceil_u64(product, d))
            },
            Rounding::Down => {
                match product.checked_div(self.denominator as u64) {
                    Some(q) => Ok(q),
                    None => Err(ProgramError::ArithmeticOverflow),
                }
            },
        }
    }

    /// Convert amount of token A (amount_from) to token B (amount_to) with Rate parameters
    pub fn convert_from_to_amount(&self, amount_from: u64, decimals_from: u8, decimals_to: u8) -> (r: Result<u64, ProgramError>)
        requires
            self.rounding == Rounding::Up && amount_from != 0 ==> self.denominator != 0,
        ensures
            r == self.spec_convert(amount_from, decimals_from, decimals_to),
    {
        if amount_from == 0 {
            return Ok(0);
        }
        let up = decimals_to >= decimals_from;
        let delta: u8 = if up { decimals_to - decimals_from } else { decimals_from - decimals_to };
        let scale = match checked_pow10(delta as u32) {
            Some(s) => s as u128,
            None => return Err(ProgramError::ArithmeticOverflow),
        };
        let (numerator, denominator): (u128, u128) = if up {
            assert(0 <= amount_from * self.numerator <= 0xffff_ffff_ffff_ffff * 0xff) by (nonlinear_arith)
                requires 0 <= amount_from <= 0xffff_ffff_ffff_ffff, 0 <= self.numerator <= 0xff;
            let base = (amount_from as u128) * (self.numerator as u128);
            let n = match base.checked_mul(scale) {
                Some(n) => n,
                None => return Err(ProgramError::ArithmeticOverflow),
            };
            (n, self.denominator as u128)
        } else {
            assert(0 <= self.denominator * scale <= 0xff * 0xffff_ffff_ffff_ffff) by (nonlinear_arith)
                requires 0 <= self.denominator <= 0xff, 0 <= scale <= 0xffff_ffff_ffff_ffff;
            let d = (self.denominator as u128) * scale;
            proof {
                lemma_pow10_pos(delta as nat);
                assert(self.denominator != 0 ==> d != 0) by (nonlinear_arith)
                    requires d == self.denominator * scale, scale >= 1;
            }
            assert(0 <= amount_from * self.numerator <= 0xffff_ffff_ffff_ffff * 0xff) by (nonlinear_arith)
                requires 0 <= amount_from <= 0xffff_ffff_ffff_ffff, 0 <= self.numerator <= 0xff;
            let n = (amount_from as u128) * (self.numerator as u128);
            (n, d)
        };
        proof {
            lemma_pow10_pos(delta as nat);
        }
        let result: u128 = match self.rounding {
            Rounding::Down => match numerator.checked_div(denominator) {
                Some(q) => q,
                None => return Err(ProgramError::ArithmeticOverflow),
            },
            Rounding::Up => div_ceil_u128(numerator, denominator),
        };
        if result > u64::MAX as u128 {
            return Err(ProgramError::ArithmeticOverflow);
        }
        Ok(result as u64)
    }

    /// The bump seed as a one-byte seed.
    pub fn bump_seed(&self) -> (r: [u8; 1])
        ensures
            r@ == seq![self.bump],
    {
        let r = [self.bump];
        assert(r@ =~= seq![self.bump]);
        r
    }

    /// The address of the rate of an action between two mints, from its seeds and bump.
    pub fn derive_pda(&self, action_id: u64, mint_from: &Pubkey, mint_to: &Pubkey) -> (r: Result<Pubkey, ProgramError>)
        ensures
            address_result_view(r) == spec_checked_create_program_address(
                seq![SEED_RATE_ACCOUNT@, le64(action_id), mint_from@, mint_to@, seq![self.bump]],
                PROGRAM_ID@,
            ),
    {
        let id = vstd::bytes::u64_to_le_bytes(action_id);
        let bump = self.bump_seed();
        let s0: &[u8] = SEED_RATE_ACCOUNT.as_slice();
        let s1: &[u8] = id.as_slice();
        let s2: &[u8] = mint_from.as_slice();
        let s3: &[u8] = mint_to.as_slice();
        let s4: &[u8] = bump.as_slice();
        let seeds: [&[u8]; 5] = [s0, s1, s2, s3, s4];
        assert(seeds@ =~= seq![s0, s1, s2, s3, s4]);
        assert(seed_views(seeds@) =~= seq![SEED_RATE_ACCOUNT@, le64(action_id), mint_from@, mint_to@, seq![self.bump]]);
        create_program_address(seeds.as_slice(), &PROGRAM_ID)
    }
}

/// The rate held by a rate account: exactly five bytes (else invalid account data), owned
/// by the program (else an invalid owner), starting with the rate discriminator.
pub open spec fn spec_rate_of_account(a: AccountView) -> Result<Rate, ProgramError> {
    if a.data@.len() != 5 {
        Err(ProgramError::InvalidAccountData)
    } else if a.owner@ != PROGRAM_ID@ {
        Err(ProgramError::InvalidAccountOwner)
    } else if a.data@[0] != 2 {
        Err(ProgramError::InvalidAccountData)
    } else {
        Rate::spec_parse_body(a.data@.drop_first())
    }
}

impl Rate {
    /// Read a rate from its account: exactly five bytes (else invalid account data),
    /// owned by the program (else an invalid owner), holding a rate.
    pub fn from_account_info(account_info: &AccountView) -> (r: Result<Rate, ProgramError>)
        ensures
            account_info.data@.len() != 5 ==> r == Err::<Rate, ProgramError>(ProgramError::InvalidAccountData),
            account_info.data@.len() == 5 && account_info.owner@ != PROGRAM_ID@
                ==> r == Err::<Rate, ProgramError>(ProgramError::InvalidAccountOwner),
            account_info.data@.len() == 5 && account_info.owner@ == PROGRAM_ID@ ==> r == (
                if account_info.data@[0] != 2 {
                    Err(ProgramError::InvalidAccountData)
                } else {
                    Rate::spec_parse_body(account_info.data@.drop_first())
                }),
            r == spec_rate_of_account(*account_info),
    {
        if account_info.data.len() != Self::LEN {
            return Err(ProgramError::InvalidAccountData);
        }
        verify_owner(account_info, &PROGRAM_ID)?;
        Self::try_from_bytes(account_info.data.as_slice())
    }
}

impl Discriminator for Rate {
    open spec fn spec_discriminator() -> u8 {
        2
    }

    fn discriminator() -> (r: u8) {
        SecurityTokenDiscriminators::RateDiscriminator.to_u8()
    }
}

impl AccountSerialize for Rate {
    open spec fn spec_bytes_inner(&self) -> Seq<u8> {
        self.spec_body()
    }

    fn to_bytes_inner(&self) -> (r: Vec<u8>) {
        let mut data: Vec<u8> = Vec::with_capacity(4);
        data.push(self.rounding.to_u8());
        data.push(self.numerator);
        data.push(self.denominator);
        data.push(self.bump);
        assert(data@ =~= self.spec_body());
        data
    }
}

impl AccountDeserialize for Rate {
    open spec fn spec_parses_inner(data: Seq<u8>, r: Result<Rate, ProgramError>) -> bool {
        r == Rate::spec_parse_body(data)
    }

    fn try_from_bytes_inner(data: &[u8]) -> (r: Result<Rate, ProgramError>) {
        if data.len() != 4 {
            return Err(ProgramError::InvalidAccountData);
        }
        let rounding = Rounding::try_from(data[0])?;
        Ok(Rate { rounding, numerator: data[1], denominator: data[2], bump: data[3] })
    }
}

/// Writing a rate account and reading the bytes back gives the rate back.
pub proof fn lemma_rate_account_roundtrip(r: Rate)
    ensures
        Rate::spec_parses_inner(r.spec_bytes_inner(), Ok::<Rate, ProgramError>(r)),
{
    lemma_rounding_roundtrip(r.rounding, 0);
}

/// `10^n` is positive.
pub proof fn lemma_pow10_pos(n: nat)
    ensures
        pow10(n) >= 1,
    decreases n,
{
    if n > 0 {
        lemma_pow10_pos((n - 1) as nat);
    }
}

/// `10^n` as a `u64`, or nothing when it does not fit.
pub fn checked_pow10(n: u32) -> (r: Option<u64>)
    ensures
        r matches Some(v) ==> v == pow10(n as nat),
        r is None <==> pow10(n as nat) > u64::MAX,
{
    let mut acc: u64 = 1;
    let mut i: u32 = 0;
    while i < n
        invariant
            0 <= i <= n,
            acc == pow10(i as nat),
        decreases n - i,
    {
        match acc.checked_mul(10) {
            Some(v) => {
                acc = v;
                i = i + 1;
            },
            None => {
                proof {
                    lemma_pow10_monotone((i + 1) as nat, n as nat);
                }
                return None;
            },
        }
    }
    Some(acc)
}

/// `10^n` grows with `n`.
pub proof fn lemma_pow10_monotone(a: nat, b: nat)
    requires
        a <= b,
    ensures
        pow10(a) <= pow10(b),
    decreases b - a,
{
    if a < b {
        lemma_pow10_monotone(a, (b - 1) as nat);
        lemma_pow10_pos((b - 1) as nat);
    }
}

/// `n / d` rounded up.
pub fn div_ceil_u64(n: u64, d: u64) -> (r: u64)
    requires
        d != 0,
    ensures
        r == spec_div_round(n as int, d as int, Rounding::Up),
{
    let q = n / d;
    if n % d != 0 {
        assert(q < n) by (nonlinear_arith)
            requires q == n / d, n % d != 0, d >= 1, n >= 0;
        q + 1
    } else {
        q
    }
}

/// `n / d` rounded up.
pub fn div_ceil_u128(n: u128, d: u128) -> (r: u128)
    requires
        d != 0,
    ensures
        r == spec_div_round(n as int, d as int, Rounding::Up),
{
    let q = n / d;
    if n % d != 0 {
        assert(q < n) by (nonlinear_arith)
            requires q == n / d, n % d != 0, d >= 1, n >= 0;
        q + 1
    } else {
        q
    }
}

/// Rounding `n / d` down gives the largest `r` with `r * d <= n`; rounding up gives the
/// smallest `r` with `n <= r * d`.
proof fn lemma_div_round_bounds(n: int, d: int, rounding: Rounding)
    requires
        n >= 0,
        d > 0,
    ensures
        spec_div_round(n, d, rounding) >= 0,
        spec_div_round(n, d, rounding) <= n,
        rounding == Rounding::Down ==> spec_div_round(n, d, rounding) * d <= n < (spec_div_round(n, d, rounding) + 1) * d,
        rounding == Rounding::Up ==> (spec_div_round(n, d, rounding) - 1) * d < n <= spec_div_round(n, d, rounding) * d,
{
    let q = n / d;
    let m = n % d;
    vstd::arithmetic::div_mod::lemma_fundamental_div_mod(n, d);
    vstd::arithmetic::div_mod::lemma_mod_bound(n, d);
    assert(q >= 0) by (nonlinear_arith) requires n >= 0, d > 0, q == n / d;
    assert(n == d * q + m);
    assert(q * d <= n < (q + 1) * d) by (nonlinear_arith) requires n == d * q + m, 0 <= m < d;
    assert(q <= n) by (nonlinear_arith) requires n == d * q + m, 0 <= m, d >= 1, q >= 0;
    if m != 0 {
        assert(q + 1 <= n) by (nonlinear_arith) requires n == d * q + m, 0 < m < d, d >= 1, q >= 0;
        assert(q * d < n <= (q + 1) * d) by (nonlinear_arith) requires n == d * q + m, 0 < m < d;
    } else {
        assert((q - 1) * d < n <= q * d) by (nonlinear_arith) requires n == d * q, d >= 1;
    }
}

/// `10^(a + b)` is `10^a * 10^b`.
pub proof fn lemma_pow10_add(a: nat, b: nat)
    ensures
        pow10(a + b) == pow10(a) * pow10(b),
    decreases a,
{
    if a > 0 {
        let a1: nat = (a - 1) as nat;
        let s1: nat = (a1 + b) as nat;
        lemma_pow10_add(a1, b);
        assert(pow10(s1) == pow10(a1) * pow10(b));
        assert(s1 + 1 == a + b);
        assert(pow10(a + b) == 10 * pow10(s1));
        assert(pow10(a) == 10 * pow10(a1));
        assert(10 * (pow10(a1) * pow10(b)) == (10 * pow10(a1)) * pow10(b)) by (nonlinear_arith);
        assert(pow10(a + b) == pow10(a) * pow10(b));
    } else {
        assert(a + b == b);
        assert(pow10(a) == 1);
        assert(pow10(a + b) == pow10(a) * pow10(b));
    }
}

/// Applying a rate to an amount gives the amount times the numerator over the
/// denominator, rounded as the rate says: down, the largest `r` with
/// `r * denominator <= amount * numerator`; up, the smallest `r` with
/// `amount * numerator <= r * denominator`. It succeeds exactly when
/// `amount * numerator` fits a `u64`; a rate rounding down with a zero denominator fails.
pub proof fn lemma_calculate_rounds(rate: Rate, amount: u64)
    ensures
        rate.denominator != 0 ==> (rate.spec_calculate(amount) is Ok <==> amount * rate.numerator <= u64::MAX),
        rate.rounding == Rounding::Down && rate.denominator == 0 ==> rate.spec_calculate(amount) is Err,
        rate.rounding == Rounding::Down ==> (rate.spec_calculate(amount) matches Ok(r) ==>
            r * rate.denominator <= amount * rate.numerator < (r + 1) * rate.denominator),
        rate.rounding == Rounding::Up && rate.denominator != 0 ==> (rate.spec_calculate(amount) matches Ok(r) ==>
            (r - 1) * rate.denominator < amount * rate.numerator <= r * rate.denominator),
{
    let p = amount * rate.numerator;
    assert(p >= 0) by (nonlinear_arith) requires p == amount * rate.numerator, amount >= 0, rate.numerator >= 0;
    if rate.denominator != 0 && p <= u64::MAX {
        lemma_div_round_bounds(p, rate.denominator as int, rate.rounding);
    }
}

/// A conversion keeps the value across the two mints' decimals: for a rate with a
/// non-zero denominator, the converted amount `r` rounds
/// `amount * numerator * 10^decimals_to` over `denominator * 10^decimals_from` as the
/// rate says (down: `r * D <= N < (r + 1) * D`; up: `(r - 1) * D < N <= r * D`). When it
/// fails, the scale `10^|decimals_to - decimals_from|` does not fit a `u64`, the scaled
/// amount does not fit a `u128`, or the result does not fit a `u64`.
pub proof fn lemma_convert_rounds(rate: Rate, amount_from: u64, decimals_from: u8, decimals_to: u8)
    requires
        rate.denominator != 0,
    ensures
        rate.spec_convert(amount_from, decimals_from, decimals_to) matches Ok(r) ==> {
            let n = amount_from * rate.numerator * pow10(decimals_to as nat);
            let d = rate.denominator * pow10(decimals_from as nat);
            &&& rate.rounding == Rounding::Down ==> r * d <= n < (r + 1) * d
            &&& rate.rounding == Rounding::Up ==> (r - 1) * d < n <= r * d
        },
        rate.spec_convert(amount_from, decimals_from, decimals_to) is Err ==> {
            let delta: nat = if decimals_to >= decimals_from { (decimals_to - decimals_from) as nat } else { (decimals_from - decimals_to) as nat };
            let n = amount_from * rate.numerator * pow10(decimals_to as nat);
            let d = rate.denominator * pow10(decimals_from as nat);
            ||| pow10(delta) > u64::MAX
            ||| (decimals_to >= decimals_from && amount_from * rate.numerator * pow10(delta) > u128::MAX)
            ||| (rate.rounding == Rounding::Down && n >= (u64::MAX + 1) * d)
            ||| (rate.rounding == Rounding::Up && n > u64::MAX * d)
        },
{
    let a = amount_from as int;
    let num = rate.numerator as int;
    let den = rate.denominator as int;
    let df = decimals_from as nat;
    let dt = decimals_to as nat;
    lemma_pow10_pos(df);
    lemma_pow10_pos(dt);
    let big_n = a * num * pow10(dt);
    let big_d = den * pow10(df);
    assert(a * num >= 0) by (nonlinear_arith) requires a >= 0, num >= 0;
    assert(big_d >= 1) by (nonlinear_arith) requires big_d == den * pow10(df), den >= 1, pow10(df) >= 1;
    if amount_from == 0 {
        assert(big_n == 0) by (nonlinear_arith) requires big_n == a * num * pow10(dt), a == 0;
        assert(0 * big_d == 0 && (0 + 1) * big_d == big_d && (0 - 1) * big_d == -big_d) by (nonlinear_arith);
    } else {
        let delta: nat = if dt >= df { (dt - df) as nat } else { (df - dt) as nat };
        lemma_pow10_pos(delta);
        if pow10(delta) <= u64::MAX {
            if dt >= df {
                lemma_pow10_add(delta, df);
                assert(dt == delta + df);
                let n = a * num * pow10(delta);
                assert(n >= 0) by (nonlinear_arith) requires n == a * num * pow10(delta), a * num >= 0, pow10(delta) >= 1;
                assert(big_n == n * pow10(df)) by (nonlinear_arith)
                    requires big_n == a * num * pow10(dt), pow10(dt) == pow10(delta) * pow10(df), n == a * num * pow10(delta);
                if n <= u128::MAX {
                    lemma_div_round_bounds(n, den, rate.rounding);
                    let r = spec_div_round(n, den, rate.rounding);
                    let k = pow10(df) as int;
                    assert(r * den * k == r * big_d) by (nonlinear_arith) requires big_d == den * k;
                    assert((r + 1) * den * k == (r + 1) * big_d) by (nonlinear_arith) requires big_d == den * k;
                    assert((r - 1) * den * k == (r - 1) * big_d) by (nonlinear_arith) requires big_d == den * k;
                    if rate.rounding == Rounding::Down {
                        assert(r * big_d <= big_n < (r + 1) * big_d) by (nonlinear_arith)
                            requires r * den <= n < (r + 1) * den, k >= 1, big_n == n * k,
                                r * den * k == r * big_d, (r + 1) * den * k == (r + 1) * big_d;
                        if r > u64::MAX {
                            assert(big_n >= (u64::MAX + 1) * big_d) by (nonlinear_arith)
                                requires r * big_d <= big_n, r >= u64::MAX + 1, big_d >= 1;
                        }
                    } else {
                        assert((r - 1) * big_d < big_n <= r * big_d) by (nonlinear_arith)
                            requires (r - 1) * den < n <= r * den, k >= 1, big_n == n * k,
                                r * den * k == r * big_d, (r - 1) * den * k == (r - 1) * big_d;
                        if r > u64::MAX {
                            assert(big_n > u64::MAX * big_d) by (nonlinear_arith)
                                requires (r - 1) * big_d < big_n, r - 1 >= u64::MAX, big_d >= 1;
                        }
                    }
                }
            } else {
                lemma_pow10_add(delta, dt);
                assert(df == delta + dt);
                let n = a * num;
                assert(n <= u128::MAX) by (nonlinear_arith) requires n == a * num, 0 <= a <= u64::MAX, 0 <= num <= 255;
                let d = den * pow10(delta);
                assert(d >= 1) by (nonlinear_arith) requires d == den * pow10(delta), den >= 1, pow10(delta) >= 1;
                lemma_div_round_bounds(n, d, rate.rounding);
                let r = spec_div_round(n, d, rate.rounding);
                let k = pow10(dt) as int;
                assert(big_n == n * k);
                assert(big_d == d * k) by (nonlinear_arith)
                    requires big_d == den * pow10(df), pow10(df) == pow10(delta) * pow10(dt), d == den * pow10(delta), k == pow10(dt);
                if rate.rounding == Rounding::Down {
                    assert(r * big_d <= big_n < (r + 1) * big_d) by (nonlinear_arith)
                        requires r * d <= n < (r + 1) * d, k >= 1, big_n == n * k, big_d == d * k;
                    if r > u64::MAX {
                        assert(big_n >= (u64::MAX + 1) * big_d) by (nonlinear_arith)
                            requires r * big_d <= big_n, r >= u64::MAX + 1, big_d >= 1;
                    }
                } else {
                    assert((r - 1) * big_d < big_n <= r * big_d) by (nonlinear_arith)
                        requires (r - 1) * d < n <= r * d, k >= 1, big_n == n * k, big_d == d * k;
                    if r > u64::MAX {
                        assert(big_n > u64::MAX * big_d) by (nonlinear_arith)
                            requires (r - 1) * big_d < big_n, r - 1 >= u64::MAX, big_d >= 1;
                    }
                }
            }
        }
    }
}

} // verus!
