//! Coins and what they are worth.

use vstd::prelude::*;
use vstd::string::StringExecFns;

verus! {

/// A coin, by its name.
#[derive(Clone, Copy, Debug, PartialEq, Eq, Structural)]
pub enum Coin {
    Penny,
    Nickle,
    Dime,
    Quarter,
}

impl Coin {
    /// What the coin is worth, in cents.
    pub open spec fn worth(self) -> nat {
        match self {
            Coin::Penny => 1,
            Coin::Nickle => 5,
            Coin::Dime => 10,
            Coin::Quarter => 25,
        }
    }

    /// The coin's worth as it is written: the cents in decimal, then the
    /// cent sign.
    pub open spec fn label(self) -> Seq<char> {
        match self {
            Coin::Penny => "1¢"@,
            Coin::Nickle => "5¢"@,
            Coin::Dime => "10¢"@,
            Coin::Quarter => "25¢"@,
        }
    }

    /// What the coin is worth, in cents.
    pub fn cents(&self) -> (cents: u8)
        ensures
            cents == self.worth(),
    {
        match self {
            Coin::Penny => 1,
            Coin::Nickle => 5,
            Coin::Dime => 10,
            Coin::Quarter => 25,
        }
    }

    /// The coin's worth as it is written.
    pub fn format(&self) -> (text: String)
        ensures
            text@ == self.label(),
    {
        match self {
            Coin::Penny => String::from_str("1¢"),
            Coin::Nickle => String::from_str("5¢"),
            Coin::Dime => String::from_str("10¢"),
            Coin::Quarter => String::from_str("25¢"),
        }
    }
}

} // verus!
