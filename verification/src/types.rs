//! The entities of the market registry.

use vstd::prelude::*;

verus! {

/// An instant: seconds since the Unix epoch, and the nanoseconds into that
/// second.
#[derive(Clone, Copy, Debug, PartialEq, Eq, Structural)]
pub struct Timestamp {
    pub seconds: i64,
    pub nanos: u32,
}

/// A coin. The address, the module and the struct name identify it; the rest
/// describes it.
#[derive(Debug, PartialEq, Eq)]
pub struct Coin {
    pub account_address: String,
    pub module_name: String,
    pub struct_name: String,
    pub symbol: String,
    pub name: String,
    pub decimals: i16,
}

impl Coin {
    /// Both coins have the same identity: address, module and struct name.
    pub open spec fn same_identity(self, other: Coin) -> bool {
        &&& self.account_address@ == other.account_address@
        &&& self.module_name@ == other.module_name@
        &&& self.struct_name@ == other.struct_name@
    }

    /// Whether both coins have the same identity.
    pub fn is_same_coin(&self, other: &Coin) -> (r: bool)
        ensures
            r == self.same_identity(*other),
    {
        self.account_address == other.account_address && self.module_name == other.module_name
            && self.struct_name == other.struct_name
    }
}

impl Clone for Coin {
    fn clone(&self) -> (r: Coin)
        ensures
            r == *self,
    {
        Coin {
            account_address: self.account_address.clone(),
            module_name: self.module_name.clone(),
            struct_name: self.struct_name.clone(),
            symbol: self.symbol.clone(),
            name: self.name.clone(),
            decimals: self.decimals,
        }
    }
}

/// A market: a base asset traded against a quote coin. A market with a
/// generic base has a base name and no base coin. Lot, tick and minimum size
/// are in fixed-point units.
#[derive(Debug, PartialEq, Eq)]
pub struct Market {
    pub market_id: u64,
    pub name: String,
    pub base: Option<Coin>,
    pub base_name_generic: Option<String>,
    pub quote: Coin,
    pub lot_size: u64,
    pub tick_size: u64,
    pub min_size: u64,
    pub underwriter_id: u64,
    pub created_at: Timestamp,
}

impl Market {
    /// The market has a base coin or a generic base name, and not both.
    pub open spec fn has_one_base(self) -> bool {
        (self.base is Some) != (self.base_name_generic is Some)
    }

    /// Whether the market has a base coin or a generic base name, and not
    /// both.
    pub fn is_consistent(&self) -> (r: bool)
        ensures
            r == self.has_one_base(),
    {
        self.base.is_some() != self.base_name_generic.is_some()
    }
}

} // verus!
