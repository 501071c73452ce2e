//! Descriptive token metadata: name, symbol, URI, and a revision counter.

use vstd::prelude::*;

use crate::error::AriaTokenError;

verus! {

/// The metadata record of the token.
#[derive(Clone, Debug, PartialEq)]
pub struct AriaMetadata {
    /// Name of the token.
    pub name: String,
    /// Symbol of the token.
    pub symbol: String,
    /// URI of the token logo and further information.
    pub uri: String,
    /// Revision of the metadata, starting at one and bumped on each update.
    pub version: u8,
}

impl AriaMetadata {
    /// A metadata record at revision one.
    pub fn new(name: String, symbol: String, uri: String) -> (r: AriaMetadata)
        ensures
            r.name == name,
            r.symbol == symbol,
            r.uri == uri,
            r.version == 1,
    {
        AriaMetadata { name, symbol, uri, version: 1 }
    }

    /// The built-in metadata of the ARIA token, at revision one.
    pub fn default() -> (r: AriaMetadata)
        ensures
            r.name@ == "ARIA Token"@,
            r.symbol@ == "ARI"@,
            r.uri@ == "https://ariatoken.io/metadata.json"@,
            r.version == 1,
    {
        AriaMetadata {
            name: String::from_str("ARIA Token"),
            symbol: String::from_str("ARI"),
            uri: String::from_str("https://ariatoken.io/metadata.json"),
            version: 1,
        }
    }
}

/// Create the metadata record; the authority must have signed.
pub fn initialize_metadata(
    authority_signed: bool,
    name: String,
    symbol: String,
    uri: String,
) -> (r: Result<AriaMetadata, AriaTokenError>)
    ensures
        !authority_signed ==> r == Err::<AriaMetadata, AriaTokenError>(
            AriaTokenError::IncorrectAuthority,
        ),
        authority_signed ==> (r matches Ok(m) && m.name == name && m.symbol == symbol && m.uri
            == uri && m.version == 1),
{
    if !authority_signed {
        return Err(AriaTokenError::IncorrectAuthority);
    }
    Ok(AriaMetadata::new(name, symbol, uri))
}

/// Partially update the metadata record: each given field overwrites, each
/// absent field stays, and the revision is bumped by one.  The authority
/// must have signed; on failure the record is untouched.
pub fn update_metadata(
    metadata: &mut AriaMetadata,
    authority_signed: bool,
    name: Option<String>,
    symbol: Option<String>,
    uri: Option<String>,
) -> (r: Result<(), AriaTokenError>)
    requires
        old(metadata).version < 255,
    ensures
        !authority_signed ==> r == Err::<(), AriaTokenError>(AriaTokenError::IncorrectAuthority)
            && *final(metadata) == *old(metadata),
        authority_signed ==> r is Ok && final(metadata).name == (if name is Some {
            name->Some_0
        } else {
            old(metadata).name
        }) && final(metadata).symbol == (if symbol is Some {
            symbol->Some_0
        } else {
            old(metadata).symbol
        }) && final(metadata).uri == (if uri is Some {
            uri->Some_0
        } else {
            old(metadata).uri
        }) && final(metadata).version == old(metadata).version + 1,
{
    if !authority_signed {
        return Err(AriaTokenError::IncorrectAuthority);
    }
    if let Some(name) = name {
        metadata.name = name;
    }
    if let Some(symbol) = symbol {
        metadata.symbol = symbol;
    }
    if let Some(uri) = uri {
        metadata.uri = uri;
    }
    metadata.version = metadata.version + 1;
    Ok(())
}

} // verus!
