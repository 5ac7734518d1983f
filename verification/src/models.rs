use vstd::prelude::*;

use crate::text::text_view;

verus! {

/// Mathematical value of a [`WalletData`]: each field by its characters.
pub struct WalletRecord {
    pub address: Option<Seq<char>>,
    pub name: Option<Seq<char>>,
    pub observed_at: Option<Seq<char>>,
}

/// What a message was found to carry, without the capture time.
pub enum Signal {
    /// Nothing worth forwarding.
    Empty,
    /// A candidate on-chain address.
    Address(Seq<char>),
    /// A candidate label, reported only when no address was found.
    Name(Seq<char>),
}

impl WalletRecord {
    /// All three fields absent.
    pub open spec fn is_empty(self) -> bool {
        self.address is None && self.name is None && self.observed_at is None
    }

    /// Either empty, or exactly one of address and name is present together
    /// with the capture time.
    pub open spec fn well_formed(self) -> bool {
        ||| self.is_empty()
        ||| (self.address is Some && self.name is None && self.observed_at is Some)
        ||| (self.address is None && self.name is Some && self.observed_at is Some)
    }

    /// The record's content with the capture time left aside.
    pub open spec fn signal(self) -> Signal {
        match (self.address, self.name) {
            (Some(a), _) => Signal::Address(a),
            (None, Some(n)) => Signal::Name(n),
            (None, None) => Signal::Empty,
        }
    }
}

/// The unit of extracted information handed from extraction to dispatch.
#[derive(Debug, Clone)]
pub struct WalletData {
    pub wallet_address: Option<String>,
    pub wallet_name: Option<String>,
    pub wallet_time: Option<String>,
}

impl View for WalletData {
    type V = WalletRecord;

    open spec fn view(&self) -> WalletRecord {
        WalletRecord {
            address: text_view(self.wallet_address),
            name: text_view(self.wallet_name),
            observed_at: text_view(self.wallet_time),
        }
    }
}

impl WalletData {
    /// Builds a record from its three fields as given.
    pub fn new(
        wallet_address: Option<String>,
        wallet_name: Option<String>,
        wallet_time: Option<String>,
    ) -> (record: Self)
        ensures
            record.wallet_address == wallet_address,
            record.wallet_name == wallet_name,
            record.wallet_time == wallet_time,
    {
        WalletData { wallet_address, wallet_name, wallet_time }
    }

    /// The record that stands for "no signal".
    pub fn empty() -> (record: Self)
        ensures
            record@.is_empty(),
            record@.well_formed(),
            record@.signal() == Signal::Empty,
    {
        WalletData { wallet_address: None, wallet_name: None, wallet_time: None }
    }

    /// A record that carries an address and the time it was seen.
    pub fn with_address(address: String, observed_at: String) -> (record: Self)
        ensures
            record@.address == Some(address@),
            record@.name is None,
            record@.observed_at == Some(observed_at@),
            record@.well_formed(),
    {
        WalletData { wallet_address: Some(address), wallet_name: None, wallet_time: Some(observed_at) }
    }

    /// A record that carries a name and the time it was seen.
    pub fn with_name(name: String, observed_at: String) -> (record: Self)
        ensures
            record@.address is None,
            record@.name == Some(name@),
            record@.observed_at == Some(observed_at@),
            record@.well_formed(),
    {
        WalletData { wallet_address: None, wallet_name: Some(name), wallet_time: Some(observed_at) }
    }

    /// True when neither an address nor a name is present: such a record is dropped.
    pub fn has_no_signal(&self) -> (b: bool)
        ensures
            b == (self@.address is None && self@.name is None),
            b == (self@.signal() == Signal::Empty),
    {
        self.wallet_address.is_none() && self.wallet_name.is_none()
    }
}

} // verus!
