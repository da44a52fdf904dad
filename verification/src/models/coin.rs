//! The coin table.

use vstd::prelude::*;
use vstd::std_specs::convert::FromSpecImpl;

use crate::types;

verus! {

/// A row of the coin table.
#[derive(Debug, PartialEq, Eq)]
pub struct Coin {
    pub account_address: String,
    pub module_name: String,
    pub struct_name: String,
    pub symbol: String,
    pub name: String,
    pub decimals: i16,
}

impl Clone for Coin {
    fn clone(&self) -> (r: Coin)
        ensures
            r == *self,
    {
        Coin {
            account_address: self.account_address.clone(),
            module_name: self.module_name.clone(),
            struct_name: self.struct_name.clone(),
            symbol: self.symbol.clone(),
            name: self.name.clone(),
            decimals: self.decimals,
        }
    }
}

impl From<Coin> for types::Coin {
    fn from(value: Coin) -> (r: types::Coin) {
        types::Coin {
            account_address: value.account_address,
            module_name: value.module_name,
            struct_name: value.struct_name,
            symbol: value.symbol,
            name: value.name,
            decimals: value.decimals,
        }
    }
}

impl FromSpecImpl<Coin> for types::Coin {
    open spec fn obeys_from_spec() -> bool {
        true
    }

    open spec fn from_spec(value: Coin) -> types::Coin {
        types::Coin {
            account_address: value.account_address,
            module_name: value.module_name,
            struct_name: value.struct_name,
            symbol: value.symbol,
            name: value.name,
            decimals: value.decimals,
        }
    }
}

/// A coin row as it is written to the table: borrowed from a [`Coin`].
#[derive(Debug, PartialEq, Eq)]
pub struct NewCoin<'a> {
    pub account_address: &'a str,
    pub module_name: &'a str,
    pub struct_name: &'a str,
    pub symbol: &'a str,
    pub name: &'a str,
    pub decimals: i16,
}

impl Coin {
    /// The row to insert for this coin.
    pub fn to_insertable(&self) -> (r: NewCoin<'_>)
        ensures
            r.account_address@ == self.account_address@,
            r.module_name@ == self.module_name@,
            r.struct_name@ == self.struct_name@,
            r.symbol@ == self.symbol@,
            r.name@ == self.name@,
            r.decimals == self.decimals,
    {
        NewCoin {
            account_address: self.account_address.as_str(),
            module_name: self.module_name.as_str(),
            struct_name: self.struct_name.as_str(),
            symbol: self.symbol.as_str(),
            name: self.name.as_str(),
            decimals: self.decimals,
        }
    }
}

} // verus!
