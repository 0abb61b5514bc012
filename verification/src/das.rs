//! The data-availability endpoint: the requests that are made of it and what
//! its answers mean.

use vstd::prelude::*;
use vstd::string::StringSliceAdditionalSpecFns;
use crate::bytes::{bytes_eq, bytes_to_vec};

verus! {

/// A JSON value. Text and member names are held as UTF-8 bytes; of a number
/// only its value as an unsigned integer is held, if it has one.
#[derive(Debug)]
pub enum Json {
    Null,
    Bool(bool),
    Number(Option<u64>),
    Text(Vec<u8>),
    Array(Vec<Json>),
    Object(Vec<(Vec<u8>, Json)>),
}

/// Why an answer of the endpoint could not be used.
#[derive(Clone, Copy, Debug, PartialEq, Eq, Structural)]
pub enum DasError {
    /// The block number is missing or is no unsigned integer.
    InvalidNumber,
    /// The block hash is missing or is no text.
    InvalidHash,
    /// The block hash is not hexadecimal.
    InvalidHex,
    /// The answer has a result of an unexpected kind.
    UnexpectedFormat,
}

/// The index of the first member named `key` at or after `from`, if any.
pub open spec fn member_at(entries: Seq<(Vec<u8>, Json)>, key: Seq<u8>, from: int) -> Option<int>
    decreases entries.len() - from,
{
    if from < 0 || from >= entries.len() {
        None
    } else if entries[from].0@ == key {
        Some(from)
    } else {
        member_at(entries, key, from + 1)
    }
}

/// The member of `value` named `key`: the first of that name if `value` is an
/// object that has one.
pub open spec fn member(value: Json, key: Seq<u8>) -> Option<Json> {
    match value {
        Json::Object(entries) => match member_at(entries@, key, 0) {
            Some(at) => Some(entries@[at].1),
            None => None,
        },
        _ => None,
    }
}

/// The value of a hexadecimal digit.
pub open spec fn hex_digit(c: u8) -> Option<u8> {
    if 0x30 <= c <= 0x39 {
        Some((c - 0x30) as u8)
    } else if 0x41 <= c <= 0x46 {
        Some((c - 0x41 + 10) as u8)
    } else if 0x61 <= c <= 0x66 {
        Some((c - 0x61 + 10) as u8)
    } else {
        None
    }
}

/// The bytes that a hexadecimal text stands for: one for each pair of digits.
/// `None` where the text has an odd length or holds anything but digits.
pub open spec fn hex_decoded(text: Seq<u8>) -> Option<Seq<u8>> {
    if text.len() % 2 == 0 && forall|i: int|
        0 <= i < text.len() ==> hex_digit(#[trigger] text[i]) is Some {
        Some(
            Seq::new(
                (text.len() / 2) as nat,
                |i: int| (hex_digit(text[2 * i])->0 * 16 + hex_digit(text[2 * i + 1])->0) as u8,
            ),
        )
    } else {
        None
    }
}

/// Calls `hex::decode`. Trusted to return what [`hex_decoded`] states: the
/// outside function fails on an odd length and on the first character that is
/// no hexadecimal digit, and else joins each pair of digits into a byte, the
/// first digit being the high half.
#[verifier::external_body]
fn hex_decode(text: &[u8]) -> (bytes: Option<Vec<u8>>)
    ensures
        match bytes {
            Some(decoded) => hex_decoded(text@) == Some(decoded@),
            None => hex_decoded(text@) is None,
        },
{
    match hex::decode(text) {
        Ok(bytes) => Some(bytes),
        Err(_) => None,
    }
}

/// `text` without the prefixes `0x` that it starts with, however many.
pub open spec fn without_0x(text: Seq<u8>) -> Seq<u8>
    decreases text.len(),
{
    if text.len() >= 2 && text[0] == 0x30 && text[1] == 0x78 {
        without_0x(text.skip(2))
    } else {
        text
    }
}

/// Removes every leading `0x` from `text`.
pub fn trim_0x(text: &[u8]) -> (rest: Vec<u8>)
    ensures
        rest@ == without_0x(text@),
{
    let mut start: usize = 0;
    assert(text@.skip(0) =~= text@);
    while text.len() - start >= 2 && text[start] == 0x30 && text[start + 1] == 0x78
        invariant
            start <= text.len(),
            without_0x(text@) == without_0x(text@.skip(start as int)),
        decreases text.len() - start,
    {
        assert(text@.skip(start as int).skip(2) =~= text@.skip(start + 2));
        start = start + 2;
    }
    let mut rest: Vec<u8> = Vec::new();
    let mut i: usize = start;
    while i < text.len()
        invariant
            start <= i <= text.len(),
            rest@ == text@.subrange(start as int, i as int),
        decreases text.len() - i,
    {
        rest.push(text[i]);
        i = i + 1;
        assert(rest@ =~= text@.subrange(start as int, i as int));
    }
    assert(text@.subrange(start as int, text.len() as int) =~= text@.skip(start as int));
    rest
}

/// The name of the member that carries the result of a call.
pub open spec fn result_key() -> Seq<u8> {
    "result".spec_bytes()
}

/// What an answer to the latest-block request means.
///
/// An answer whose result is no array means that there is no block yet. Else
/// the array starts with the number of the block, of which the low 32 bits
/// count, and its hash as hexadecimal text, `0x` in front or not.
pub open spec fn latest_block(response: Json) -> Result<Option<(u32, Seq<u8>)>, DasError> {
    match member(response, result_key()) {
        Some(Json::Array(items)) => {
            if items@.len() == 0 {
                Err(DasError::InvalidNumber)
            } else {
                match items@[0] {
                    Json::Number(Some(number)) => {
                        if items@.len() == 1 {
                            Err(DasError::InvalidHash)
                        } else {
                            match items@[1] {
                                Json::Text(text) => match hex_decoded(without_0x(text@)) {
                                    Some(hash) => Ok(
                                        Some(((number % 0x1_0000_0000) as u32, hash)),
                                    ),
                                    None => Err(DasError::InvalidHex),
                                },
                                _ => Err(DasError::InvalidHash),
                            }
                        }
                    },
                    _ => Err(DasError::InvalidNumber),
                }
            }
        },
        _ => Ok(None),
    }
}

/// What an answer to the availability request means: the flag it carries,
/// nothing where it has no result, and an error where the result is no flag.
pub open spec fn availability(response: Json) -> Result<Option<bool>, DasError> {
    match member(response, result_key()) {
        Some(Json::Bool(available)) => Ok(Some(available)),
        Some(_) => Err(DasError::UnexpectedFormat),
        None => Ok(None),
    }
}

/// A block as the latest-block request reports it, compared by value.
pub open spec fn block_view(block: Result<Option<(u32, Vec<u8>)>, DasError>) -> Result<
    Option<(u32, Seq<u8>)>,
    DasError,
> {
    match block {
        Ok(Some((number, hash))) => Ok(Some((number, hash@))),
        Ok(None) => Ok(None),
        Err(error) => Err(error),
    }
}

impl DasError {
    /// The text of the error.
    pub fn message(&self) -> (text: &'static str)
        ensures
            text@ == match *self {
                DasError::InvalidNumber => "Invalid number format"@,
                DasError::InvalidHash => "Invalid hash format"@,
                DasError::InvalidHex => "Invalid hash encoding"@,
                DasError::UnexpectedFormat => "Unexpected response format"@,
            },
    {
        match self {
            DasError::InvalidNumber => "Invalid number format",
            DasError::InvalidHash => "Invalid hash format",
            DasError::InvalidHex => "Invalid hash encoding",
            DasError::UnexpectedFormat => "Unexpected response format",
        }
    }
}

impl Json {
    /// A text value holding `text`.
    pub fn text(text: &str) -> (value: Json)
        ensures
            value matches Json::Text(bytes) && bytes@ == text.spec_bytes(),
    {
        Json::Text(bytes_to_vec(text.as_bytes()))
    }

    /// The member named `key`, if `self` is an object that has one.
    pub fn get(&self, key: &[u8]) -> (found: Option<&Json>)
        ensures
            match found {
                Some(value) => member(*self, key@) == Some(*value),
                None => member(*self, key@) is None,
            },
    {
        match self {
            Json::Object(entries) => {
                let mut i: usize = 0;
                while i < entries.len()
                    invariant
                        i <= entries.len(),
                        *self == Json::Object(*entries),
                        member_at(entries@, key@, 0) == member_at(entries@, key@, i as int),
                    decreases entries.len() - i,
                {
                    if bytes_eq(entries[i].0.as_slice(), key) {
                        assert(member_at(entries@, key@, i as int) == Some(i as int));
                        return Some(&entries[i].1);
                    }
                    i = i + 1;
                }
                None
            },
            _ => None,
        }
    }
}

/// A JSON-RPC 2.0 call of `method` with `params`, numbered 1.
pub open spec fn is_call(request: Json, method: Seq<u8>, params: Seq<Json>) -> bool {
    &&& request matches Json::Object(entries)
    &&& entries@.len() == 4
    &&& entries@[0].0@ == "method".spec_bytes()
    &&& entries@[0].1 matches Json::Text(name)
    &&& name@ == method
    &&& entries@[1].0@ == "params".spec_bytes()
    &&& entries@[1].1 matches Json::Array(list)
    &&& list@ == params
    &&& entries@[2].0@ == "id".spec_bytes()
    &&& entries@[2].1 == Json::Number(Some(1))
    &&& entries@[3].0@ == "jsonrpc".spec_bytes()
    &&& entries@[3].1 matches Json::Text(version)
    &&& version@ == "2.0".spec_bytes()
}

/// The parameters of a call.
pub open spec fn params_of(request: Json) -> Seq<Json> {
    match request {
        Json::Object(entries) => match entries@[1].1 {
            Json::Array(list) => list@,
            _ => Seq::empty(),
        },
        _ => Seq::empty(),
    }
}

fn call(method: &str, params: Vec<Json>) -> (request: Json)
    ensures
        is_call(request, method.spec_bytes(), params@),
        params_of(request) == params@,
{
    let mut entries: Vec<(Vec<u8>, Json)> = Vec::new();
    entries.push((bytes_to_vec("method".as_bytes()), Json::text(method)));
    entries.push((bytes_to_vec("params".as_bytes()), Json::Array(params)));
    entries.push((bytes_to_vec("id".as_bytes()), Json::Number(Some(1))));
    entries.push((bytes_to_vec("jsonrpc".as_bytes()), Json::text("2.0")));
    Json::Object(entries)
}

/// Handle on a data-availability RPC server, identified by its URL.
pub struct DasClient {
    rpc_url: String,
}

impl DasClient {
    /// The URL this client talks to.
    pub closed spec fn url(&self) -> Seq<char> {
        self.rpc_url@
    }

    /// Creates a client for the server at `rpc_url`.
    pub fn new(rpc_url: String) -> (client: Self)
        ensures
            client.url() == rpc_url@,
    {
        DasClient { rpc_url }
    }

    /// The URL of the server.
    pub fn rpc_url(&self) -> (url: &str)
        ensures
            url@ == self.url(),
    {
        self.rpc_url.as_str()
    }

    /// The request for the latest processed block.
    pub fn latest_block_request(&self) -> (request: Json)
        ensures
            is_call(request, "das_last".spec_bytes(), Seq::empty()),
    {
        call("das_last", Vec::new())
    }

    /// The request for the availability of the data of the block with the
    /// given hash.
    pub fn availability_request(&self, block_hash: &str) -> (request: Json)
        ensures
            is_call(request, "das_isAvailable".spec_bytes(), params_of(request)),
            params_of(request).len() == 1,
            params_of(request)[0] matches Json::Text(bytes) && bytes@ == block_hash.spec_bytes(),
    {
        let mut params: Vec<Json> = Vec::new();
        let hash = Json::text(block_hash);
        params.push(hash);
        assert(params@ =~= seq![hash]);
        call("das_isAvailable", params)
    }

    /// Reads the latest processed block out of the server's answer: its
    /// number and hash, or nothing where the server has none.
    pub fn get_latest_block(&self, response: &Json) -> (block: Result<
        Option<(u32, Vec<u8>)>,
        DasError,
    >)
        ensures
            block_view(block) == latest_block(*response),
    {
        match response.get("result".as_bytes()) {
            Some(Json::Array(items)) => {
                if items.len() == 0 {
                    return Err(DasError::InvalidNumber);
                }
                let number = match &items[0] {
                    Json::Number(Some(number)) => (*number % 0x1_0000_0000) as u32,
                    _ => {
                        return Err(DasError::InvalidNumber);
                    },
                };
                if items.len() == 1 {
                    return Err(DasError::InvalidHash);
                }
                match &items[1] {
                    Json::Text(text) => {
                        let digits = trim_0x(text.as_slice());
                        match hex_decode(digits.as_slice()) {
                            Some(hash) => Ok(Some((number, hash))),
                            None => Err(DasError::InvalidHex),
                        }
                    },
                    _ => Err(DasError::InvalidHash),
                }
            },
            _ => Ok(None),
        }
    }

    /// Reads the availability flag out of the server's answer, or nothing
    /// where the answer has no result.
    pub fn check_data_availability(&self, response: &Json) -> (available: Result<
        Option<bool>,
        DasError,
    >)
        ensures
            available == availability(*response),
    {
        match response.get("result".as_bytes()) {
            Some(Json::Bool(available)) => Ok(Some(*available)),
            Some(_) => Err(DasError::UnexpectedFormat),
            None => Ok(None),
        }
    }
}

} // verus!
