//! The shared game state exchanged with the host boundary: a wallet
//! address, a balance for display, a payment flag, and a speed override.
//! Each accessor touches one field and nothing else; the host side wraps
//! one value of this type in a mutual-exclusion lock scoped to the single
//! call, so no composite read-modify-write is atomic and none is offered.
//!
//! The balance is an integer count of display units and the speed override
//! is in pixels per second, zero meaning no override.

use vstd::prelude::*;

verus! {

/// The process-wide state shared between the simulation and the host.
#[derive(Debug)]
pub struct SharedState {
    pub sui_address: String,
    pub balance: i64,
    pub is_paid: bool,
    pub speed: u32,
}

/// `s` with only the balance replaced.
pub open spec fn with_balance(s: SharedState, balance: i64) -> SharedState {
    SharedState { balance, ..s }
}

/// `s` with only the wallet address replaced.
pub open spec fn with_sui_address(s: SharedState, sui_address: String) -> SharedState {
    SharedState { sui_address, ..s }
}

/// `s` with only the payment flag replaced.
pub open spec fn with_is_paid(s: SharedState, is_paid: bool) -> SharedState {
    SharedState { is_paid, ..s }
}

/// `s` with only the speed override replaced.
pub open spec fn with_speed(s: SharedState, speed: u32) -> SharedState {
    SharedState { speed, ..s }
}

impl SharedState {
    /// The startup state: disconnected, zero balance, unpaid, no override.
    pub fn new() -> (s: SharedState)
        ensures
            s.sui_address@ == Seq::<char>::empty(),
            s.balance == 0,
            !s.is_paid,
            s.speed == 0,
    {
        SharedState { sui_address: String::new(), balance: 0, is_paid: false, speed: 0 }
    }

    /// Store the numeric balance for display.
    pub fn set_player_balance(&mut self, balance: i64)
        ensures
            *final(self) == with_balance(*old(self), balance),
    {
        self.balance = balance;
    }

    /// Read the stored balance.
    pub fn get_player_balance(&self) -> (r: i64)
        ensures
            r == self.balance,
    {
        self.balance
    }

    /// Store the wallet/connection identifier; an empty string means
    /// disconnected.
    pub fn update_sui_address(&mut self, sui_address: String)
        ensures
            *final(self) == with_sui_address(*old(self), sui_address),
    {
        self.sui_address = sui_address;
    }

    /// Read the stored wallet address.
    pub fn get_sui_address(&self) -> (r: &String)
        ensures
            r == &self.sui_address,
    {
        &self.sui_address
    }

    /// Store the one-bit payment status.
    pub fn update_is_paid(&mut self, is_paid: bool)
        ensures
            *final(self) == with_is_paid(*old(self), is_paid),
    {
        self.is_paid = is_paid;
    }

    /// Read the stored payment status.
    pub fn get_is_paid(&self) -> (r: bool)
        ensures
            r == self.is_paid,
    {
        self.is_paid
    }

    /// Store the speed override; zero means no override.
    pub fn set_speed_override(&mut self, speed: u32)
        ensures
            *final(self) == with_speed(*old(self), speed),
    {
        self.speed = speed;
    }

    /// Read the speed override.
    pub fn get_speed_override(&self) -> (r: u32)
        ensures
            r == self.speed,
    {
        self.speed
    }
}

/// Law: writing one field and reading it back returns the just-written
/// value, and no write touches any other field. With each accessor's
/// contract this gives the set-then-get round trip for every field.
pub proof fn lemma_set_then_get(s: SharedState, a: String, b: i64, p: bool, v: u32)
    ensures
        with_sui_address(s, a).sui_address == a,
        with_balance(s, b).balance == b,
        with_is_paid(s, p).is_paid == p,
        with_speed(s, v).speed == v,
        with_sui_address(s, a).balance == s.balance,
        with_sui_address(s, a).is_paid == s.is_paid,
        with_sui_address(s, a).speed == s.speed,
        with_balance(s, b).sui_address == s.sui_address,
        with_balance(s, b).is_paid == s.is_paid,
        with_balance(s, b).speed == s.speed,
        with_is_paid(s, p).sui_address == s.sui_address,
        with_is_paid(s, p).balance == s.balance,
        with_is_paid(s, p).speed == s.speed,
        with_speed(s, v).sui_address == s.sui_address,
        with_speed(s, v).balance == s.balance,
        with_speed(s, v).is_paid == s.is_paid,
{
}

} // verus!
