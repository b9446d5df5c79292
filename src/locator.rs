use vstd::prelude::*;
use crate::errors::ErrorKind;
use crate::model::OutPoint;

verus! {

/// What the first capture group of `pattern` matches in the first match of
/// `pattern` in `text`; `None` where the pattern does not compile, nothing
/// matches, or the group takes part in no match.
pub uninterp spec fn regex_first_capture(pattern: Seq<char>, text: Seq<char>) -> Option<Seq<char>>;

/// The transaction id bytes and output index written in `text` as
/// `<txid hex>:<index>`, or `None` where `text` is no such outpoint.
pub uninterp spec fn outpoint_of_text(text: Seq<char>) -> Option<(Seq<u8>, u32)>;

/// The locking script of the address written in `text`, or `None` where
/// `text` is no address.
pub uninterp spec fn script_of_address(text: Seq<char>) -> Option<Seq<u8>>;

/// Relies on regex::Regex::new, Regex::captures and Captures::get(1): the
/// text of the first capture group of the first match.
#[verifier::external_body]
fn first_capture(pattern: &str, text: &str) -> (r: Option<String>)
    ensures
        r matches Some(s) ==> regex_first_capture(pattern@, text@) == Some(s@),
        r is None ==> regex_first_capture(pattern@, text@) is None,
{
    match regex::Regex::new(pattern) {
        Err(_) => None,
        Ok(re) => match re.captures(text) {
            None => None,
            Some(caps) => match caps.get(1) {
                None => None,
                Some(m) => Some(m.as_str().to_string()),
            },
        },
    }
}

/// Relies on bitcoin's `OutPoint::from_str`: parses `<txid hex>:<index>`;
/// the id is handed on as its inner bytes.
#[verifier::external_body]
fn parse_outpoint(text: &str) -> (r: Option<OutPoint>)
    ensures
        r matches Some(op) ==> outpoint_of_text(text@) == Some((op.txid@, op.vout)),
        r is None ==> outpoint_of_text(text@) is None,
{
    match <bitcoin::OutPoint as std::str::FromStr>::from_str(text) {
        Err(_) => None,
        Ok(op) => Some(OutPoint {
            txid: <bitcoin::Txid as bitcoin::hashes::Hash>::into_inner(op.txid),
            vout: op.vout,
        }),
    }
}

/// Relies on bitcoin's `Address::from_str` and `Address::script_pubkey`:
/// the locking script that pays the address.
#[verifier::external_body]
fn address_script(text: &str) -> (r: Option<Vec<u8>>)
    ensures
        r matches Some(s) ==> script_of_address(text@) == Some(s@),
        r is None ==> script_of_address(text@) is None,
{
    match <bitcoin::Address as std::str::FromStr>::from_str(text) {
        Err(_) => None,
        Ok(a) => Some(a.script_pubkey().to_bytes()),
    }
}

/// Where an inscription currently is and who holds it.
#[derive(Debug)]
pub struct InscriptionRecord {
    pub location: OutPoint,
    pub owner: String,
    pub owner_script: Vec<u8>,
}

/// The link to an inscription on the page that lists it by number.
pub open spec fn id_pattern() -> Seq<char> {
    "/inscription/(.*?)>"@
}

/// The owner's address on an inscription's page.
pub open spec fn owner_pattern() -> Seq<char> {
    r"address</dt>\n\s+<dd class=monospace>(.*?)</dd>"@
}

/// The link to the output holding an inscription, on its page.
pub open spec fn output_pattern() -> Seq<char> {
    "/output/(.*?)>"@
}

/// Finds the inscription id on the page that lists an inscription by
/// number; `None` for the page stands for a failed fetch.
pub fn inscription_id_from_page(page: &Option<String>) -> (r: Result<String, ErrorKind>)
    ensures
        page is None ==> r == Err::<String, ErrorKind>(ErrorKind::TransientLookupFailure),
        page matches Some(p) ==> match regex_first_capture(id_pattern(), p@) {
            Some(id) => r matches Ok(s) && s@ == id,
            None => r == Err::<String, ErrorKind>(ErrorKind::NotFound),
        },
{
    match page {
        None => Err(ErrorKind::TransientLookupFailure),
        Some(p) => match first_capture("/inscription/(.*?)>", p.as_str()) {
            Some(id) => Ok(id),
            None => Err(ErrorKind::NotFound),
        },
    }
}

/// What an inscription's page says of its location, as a result.
pub open spec fn record_spec(page: Seq<char>, r: Result<InscriptionRecord, ErrorKind>) -> bool {
    match (regex_first_capture(owner_pattern(), page), regex_first_capture(output_pattern(), page)) {
        (Some(owner), Some(output)) => match (outpoint_of_text(output), script_of_address(owner)) {
            (Some(op), Some(script)) => r matches Ok(rec) && rec.location.txid@ == op.0
                && rec.location.vout == op.1 && rec.owner@ == owner && rec.owner_script@ == script,
            _ => r == Err::<InscriptionRecord, ErrorKind>(ErrorKind::AmbiguousLocation),
        },
        _ => r == Err::<InscriptionRecord, ErrorKind>(ErrorKind::NotFound),
    }
}

/// Reads an inscription's location and owner from its page; `None` for the
/// page stands for a failed fetch. A page without both is `NotFound`; one
/// whose output or owner cannot be parsed is `AmbiguousLocation`.
pub fn get_inscription_data(page: &Option<String>) -> (r: Result<InscriptionRecord, ErrorKind>)
    ensures
        page is None ==> r == Err::<InscriptionRecord, ErrorKind>(ErrorKind::TransientLookupFailure),
        page matches Some(p) ==> record_spec(p@, r),
{
    match page {
        None => Err(ErrorKind::TransientLookupFailure),
        Some(p) => {
            let owner = first_capture(r"address</dt>\n\s+<dd class=monospace>(.*?)</dd>", p.as_str());
            let output = first_capture("/output/(.*?)>", p.as_str());
            match (owner, output) {
                (Some(owner), Some(output)) => {
                    match (parse_outpoint(output.as_str()), address_script(owner.as_str())) {
                        (Some(location), Some(owner_script)) => Ok(
                            InscriptionRecord { location, owner, owner_script },
                        ),
                        _ => Err(ErrorKind::AmbiguousLocation),
                    }
                },
                _ => Err(ErrorKind::NotFound),
            }
        },
    }
}

} // verus!
