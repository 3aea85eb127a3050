//! The first generation of the contract configuration: the storage cost and the gas for the
//! staking pool calls and callbacks, updated from optional values with the storage cost given
//! as a decimal string.

pub mod updates;

use vstd::prelude::*;
use vstd::string::*;

verus! {

/// the value of a string of decimal digits
pub open spec fn digits_value(s: Seq<char>) -> int
    decreases s.len(),
{
    if s.len() == 0 {
        0
    } else {
        digits_value(s.drop_last()) * 10 + (s.last() as int - '0' as int)
    }
}

pub open spec fn is_digit(c: char) -> bool {
    '0' <= c && c <= '9'
}

/// the digits of a u128 in decimal, after an optional leading `+`
pub open spec fn unsigned_digits(s: Seq<char>) -> Seq<char> {
    if s.len() > 0 && s[0] == '+' {
        s.subrange(1, s.len() as int)
    } else {
        s
    }
}

/// the u128 that the string represents in decimal, with an optional leading `+`: at least one
/// digit, nothing but digits, and a value that fits
pub open spec fn spec_parse_u128(s: Seq<char>) -> Option<u128> {
    let digits = unsigned_digits(s);
    if digits.len() > 0 && (forall|i: int| 0 <= i < digits.len() ==> is_digit(#[trigger] digits[i]))
        && digits_value(digits) <= u128::MAX {
        Some(digits_value(digits) as u128)
    } else {
        None
    }
}

proof fn lemma_digits_value_step(s: Seq<char>, i: int)
    requires
        0 <= i < s.len(),
    ensures
        s.subrange(0, i + 1).drop_last() == s.subrange(0, i),
        s.subrange(0, i + 1).last() == s[i],
        digits_value(s.subrange(0, i + 1)) == digits_value(s.subrange(0, i)) * 10 + (s[i] as int - '0' as int),
{
    assert(s.subrange(0, i + 1).drop_last() =~= s.subrange(0, i));
}

proof fn lemma_digits_value_nonneg(s: Seq<char>)
    requires
        forall|i: int| 0 <= i < s.len() ==> is_digit(#[trigger] s[i]),
    ensures
        digits_value(s) >= 0,
    decreases s.len(),
{
    if s.len() > 0 {
        assert(is_digit(s[s.len() - 1]));
        lemma_digits_value_nonneg(s.drop_last());
    }
}

/// parses a u128 written in decimal, with an optional leading `+`
pub fn parse_u128(s: &str) -> (r: Option<u128>)
    ensures
        r == spec_parse_u128(s@),
{
    let len = s.unicode_len();
    let mut i: usize = 0;
    if len > 0 && s.get_char(0) == '+' {
        i = 1;
    }
    let start = i;
    let ghost digits = unsigned_digits(s@);
    proof {
        assert(digits =~= s@.subrange(start as int, len as int));
    }
    if start == len {
        return None;
    }
    let mut value: u128 = 0;
    while i < len
        invariant
            start <= i <= len,
            len == s@.len(),
            digits == s@.subrange(start as int, len as int),
            digits == unsigned_digits(s@),
            digits.len() > 0,
            forall|j: int| 0 <= j < i - start ==> is_digit(#[trigger] digits[j]),
            value == digits_value(digits.subrange(0, i - start)),
        decreases len - i,
    {
        let c = s.get_char(i);
        let ghost k: int = i - start;
        proof {
            assert(digits[k] == c);
            lemma_digits_value_step(digits, k);
        }
        if !('0' <= c && c <= '9') {
            proof {
                assert(!is_digit(digits[k]));
            }
            return None;
        }
        let d = (c as u32 - '0' as u32) as u128;
        if value > (u128::MAX - d) / 10 {
            proof {
                assert(value * 10 + d > u128::MAX) by (nonlinear_arith)
                    requires
                        value > (u128::MAX - d) / 10,
                        d <= 9,
                ;
                if forall|j: int| 0 <= j < digits.len() ==> is_digit(#[trigger] digits[j]) {
                    lemma_digits_value_prefix_bound(digits, k + 1);
                }
            }
            return None;
        }
        proof {
            assert(value * 10 + d <= u128::MAX) by (nonlinear_arith)
                requires
                    value <= (u128::MAX - d) / 10,
                    d <= 9,
            ;
        }
        value = value * 10 + d;
        i = i + 1;
    }
    proof {
        assert(digits.subrange(0, len - start) =~= digits);
    }
    Some(value)
}

/// the value of a string of digits is at least the value of any of its prefixes
proof fn lemma_digits_value_prefix_bound(s: Seq<char>, n: int)
    requires
        0 <= n <= s.len(),
        forall|i: int| 0 <= i < s.len() ==> is_digit(#[trigger] s[i]),
    ensures
        digits_value(s.subrange(0, n)) <= digits_value(s),
    decreases s.len() - n,
{
    if n < s.len() {
        lemma_digits_value_prefix_bound(s, n + 1);
        lemma_digits_value_step(s, n);
        assert forall|i: int| 0 <= i < n implies is_digit(#[trigger] s.subrange(0, n)[i]) by {
            assert(s.subrange(0, n)[i] == s[i]);
        }
        lemma_digits_value_nonneg(s.subrange(0, n));
        assert(is_digit(s[n]));
    } else {
        assert(s.subrange(0, n) =~= s);
    }
}

pub const BASE_GAS: u64 = 25_000_000_000_000;

#[derive(Debug)]
pub struct Config {
    pub storage_cost_per_byte: u128,
    pub gas_config: GasConfig,
}

impl Config {
    pub fn new(storage_cost_per_byte: u128, gas_config: GasConfig) -> (r: Self)
        ensures
            r.storage_cost_per_byte == storage_cost_per_byte,
            r.gas_config == gas_config,
    {
        Config { storage_cost_per_byte, gas_config }
    }

    pub fn storage_cost_per_byte(&self) -> (r: u128)
        ensures
            r == self.storage_cost_per_byte,
    {
        self.storage_cost_per_byte
    }

    pub fn gas_config(&self) -> (r: &GasConfig)
        ensures
            *r == self.gas_config,
    {
        &self.gas_config
    }

    /// the update's storage cost is a valid decimal u128, if it has one
    pub open spec fn updates_valid(config: updates::Config) -> bool {
        config.storage_cost_per_byte matches Some(s) ==> spec_parse_u128(s@) is Some
    }

    /// applies the properties that the update sets
    pub fn apply_updates(&mut self, config: &updates::Config)
        requires
            Self::updates_valid(*config),
        ensures
            final(self).storage_cost_per_byte == (match config.storage_cost_per_byte {
                Some(s) => spec_parse_u128(s@).unwrap(),
                None => old(self).storage_cost_per_byte,
            }),
            final(self).gas_config == (match config.gas_config {
                Some(gas_config) => old(self).gas_config.spec_update(gas_config),
                None => old(self).gas_config,
            }),
    {
        if let Some(storage_cost_per_byte) = &config.storage_cost_per_byte {
            self.storage_cost_per_byte = parse_u128(storage_cost_per_byte.as_str()).unwrap();
        }
        if let Some(gas_config) = &config.gas_config {
            self.gas_config.update(gas_config);
        }
    }
}

impl Default for Config {
    fn default() -> (r: Self)
        ensures
            r.storage_cost_per_byte == 100_000_000_000_000_000_000,
            r.gas_config == GasConfig::spec_default(),
    {
        Config {
            // 1E20 yoctoNEAR (0.00001 NEAR) per byte or 10kb per NEAR token
            storage_cost_per_byte: 100_000_000_000_000_000_000,
            gas_config: GasConfig::default(),
        }
    }
}

#[derive(Debug, Clone, Copy)]
pub struct GasConfig {
    pub staking_pool: StakingPoolGasConfig,
    pub callbacks: CallBacksGasConfig,
}

impl GasConfig {
    pub open spec fn spec_default() -> Self {
        GasConfig { staking_pool: StakingPoolGasConfig::spec_default(), callbacks: CallBacksGasConfig::spec_default() }
    }

    pub fn staking_pool(&self) -> (r: &StakingPoolGasConfig)
        ensures
            *r == self.staking_pool,
    {
        &self.staking_pool
    }

    pub fn callbacks(&self) -> (r: &CallBacksGasConfig)
        ensures
            *r == self.callbacks,
    {
        &self.callbacks
    }

    pub open spec fn spec_update(self, config: updates::GasConfig) -> Self {
        GasConfig {
            staking_pool: match config.staking_pool {
                Some(c) => self.staking_pool.spec_update(c),
                None => self.staking_pool,
            },
            callbacks: match config.callbacks {
                Some(c) => self.callbacks.spec_update(c),
                None => self.callbacks,
            },
        }
    }

    pub fn update(&mut self, config: &updates::GasConfig)
        ensures
            *final(self) == old(self).spec_update(*config),
    {
        if let Some(staking_pool) = &config.staking_pool {
            self.staking_pool.update(staking_pool);
        }
        if let Some(callbacks) = &config.callbacks {
            self.callbacks.update(callbacks);
        }
    }
}

impl Default for GasConfig {
    fn default() -> (r: Self)
        ensures
            r == Self::spec_default(),
    {
        GasConfig { staking_pool: StakingPoolGasConfig::default(), callbacks: CallBacksGasConfig::default() }
    }
}

#[derive(Debug, Clone, Copy)]
pub struct StakingPoolGasConfig {
    pub deposit_and_stake: u64,
    pub unstake: u64,
    pub withdraw: u64,
    pub get_account_balance: u64,
}

/// the update's value where it sets one
pub open spec fn updated(update: Option<u64>, current: u64) -> u64 {
    match update {
        Some(value) => value,
        None => current,
    }
}

impl StakingPoolGasConfig {
    pub open spec fn spec_default() -> Self {
        StakingPoolGasConfig {
            deposit_and_stake: (BASE_GAS * 3) as u64,
            unstake: (BASE_GAS * 3) as u64,
            withdraw: (BASE_GAS * 3) as u64,
            get_account_balance: BASE_GAS,
        }
    }

    pub fn deposit_and_stake(&self) -> (r: u64)
        ensures
            r == self.deposit_and_stake,
    {
        self.deposit_and_stake
    }

    pub fn unstake(&self) -> (r: u64)
        ensures
            r == self.unstake,
    {
        self.unstake
    }

    pub fn withdraw(&self) -> (r: u64)
        ensures
            r == self.withdraw,
    {
        self.withdraw
    }

    pub fn get_account_balance(&self) -> (r: u64)
        ensures
            r == self.get_account_balance,
    {
        self.get_account_balance
    }

    pub open spec fn spec_update(self, config: updates::StakingPoolGasConfig) -> Self {
        StakingPoolGasConfig {
            deposit_and_stake: updated(config.deposit_and_stake, self.deposit_and_stake),
            unstake: updated(config.unstake, self.unstake),
            withdraw: updated(config.withdraw, self.withdraw),
            get_account_balance: updated(config.get_account_balance, self.get_account_balance),
        }
    }

    pub fn update(&mut self, config: &updates::StakingPoolGasConfig)
        ensures
            *final(self) == old(self).spec_update(*config),
    {
        if let Some(deposit_and_stake) = config.deposit_and_stake {
            self.deposit_and_stake = deposit_and_stake;
        }
        if let Some(unstake) = config.unstake {
            self.unstake = unstake;
        }
        if let Some(withdraw) = config.withdraw {
            self.withdraw = withdraw;
        }
        if let Some(get_account_balance) = config.get_account_balance {
            self.get_account_balance = get_account_balance;
        }
    }
}

impl Default for StakingPoolGasConfig {
    fn default() -> (r: Self)
        ensures
            r == Self::spec_default(),
    {
        StakingPoolGasConfig {
            deposit_and_stake: BASE_GAS * 3,
            unstake: BASE_GAS * 3,
            withdraw: BASE_GAS * 3,
            get_account_balance: BASE_GAS,
        }
    }
}

#[derive(Debug, Clone, Copy)]
pub struct CallBacksGasConfig {
    pub on_deposit_and_stake: u64,
}

impl CallBacksGasConfig {
    pub open spec fn spec_default() -> Self {
        CallBacksGasConfig { on_deposit_and_stake: BASE_GAS }
    }

    pub fn on_deposit_and_stake(&self) -> (r: u64)
        ensures
            r == self.on_deposit_and_stake,
    {
        self.on_deposit_and_stake
    }

    pub open spec fn spec_update(self, config: updates::CallBacksGasConfig) -> Self {
        CallBacksGasConfig { on_deposit_and_stake: updated(config.on_deposit_and_stake, self.on_deposit_and_stake) }
    }

    pub fn update(&mut self, config: &updates::CallBacksGasConfig)
        ensures
            *final(self) == old(self).spec_update(*config),
    {
        if let Some(on_deposit_and_stake) = config.on_deposit_and_stake {
            self.on_deposit_and_stake = on_deposit_and_stake;
        }
    }
}

impl Default for CallBacksGasConfig {
    fn default() -> (r: Self)
        ensures
            r == Self::spec_default(),
    {
        CallBacksGasConfig { on_deposit_and_stake: BASE_GAS }
    }
}

} // verus!
