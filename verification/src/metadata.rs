//! The asset's descriptive record: written once, read ever after.

use vstd::prelude::*;
use crate::error::TokenError;

verus! {

/// How the asset presents itself.
pub struct Metadata {
    pub decimals: u8,
    pub name: String,
    pub symbol: String,
}

/// A metadata record as a mathematical value.
pub struct MetadataView {
    pub decimals: u8,
    pub name: Seq<char>,
    pub symbol: Seq<char>,
}

impl View for Metadata {
    type V = MetadataView;

    open spec fn view(&self) -> MetadataView {
        MetadataView { decimals: self.decimals, name: self.name@, symbol: self.symbol@ }
    }
}

/// Holds the metadata record. It starts out empty, takes a record once, and keeps it.
pub struct MetadataStore {
    record: Option<Metadata>,
}

impl View for MetadataStore {
    type V = Option<MetadataView>;

    closed spec fn view(&self) -> Option<MetadataView> {
        match self.record {
            Some(m) => Some(m@),
            None => None,
        }
    }
}

impl MetadataStore {
    /// The store before its record is written.
    pub fn new() -> (store: MetadataStore)
        ensures
            store@ is None,
    {
        MetadataStore { record: None }
    }

    /// Whether the record was written.
    pub fn is_initialized(&self) -> (r: bool)
        ensures
            r == (self@ is Some),
    {
        self.record.is_some()
    }

    /// Writes the record. Only the first call does; every later one is refused with
    /// `AlreadyInitialized` and leaves the record as it is.
    pub fn initialize(&mut self, decimals: u8, name: String, symbol: String) -> (r: Result<
        (),
        TokenError,
    >)
        ensures
            old(self)@ is Some ==> r == Err::<(), TokenError>(TokenError::AlreadyInitialized)
                && final(self)@ == old(self)@,
            old(self)@ is None ==> r is Ok && final(self)@ == Some(
                MetadataView { decimals, name: name@, symbol: symbol@ },
            ),
    {
        if self.record.is_some() {
            return Err(TokenError::AlreadyInitialized);
        }
        self.record = Some(Metadata { decimals, name, symbol });
        Ok(())
    }

    /// The number of decimal places, once the record is written.
    pub fn decimals(&self) -> (r: Option<u8>)
        ensures
            match self@ {
                Some(m) => r == Some(m.decimals),
                None => r is None,
            },
    {
        match &self.record {
            Some(m) => Some(m.decimals),
            None => None,
        }
    }

    /// The asset's name, as it was written.
    pub fn name(&self) -> (r: Option<String>)
        ensures
            match self@ {
                Some(m) => r is Some && r->Some_0@ == m.name,
                None => r is None,
            },
    {
        match &self.record {
            Some(m) => Some(m.name.clone()),
            None => None,
        }
    }

    /// The asset's symbol, as it was written.
    pub fn symbol(&self) -> (r: Option<String>)
        ensures
            match self@ {
                Some(m) => r is Some && r->Some_0@ == m.symbol,
                None => r is None,
            },
    {
        match &self.record {
            Some(m) => Some(m.symbol.clone()),
            None => None,
        }
    }
}

} // verus!
