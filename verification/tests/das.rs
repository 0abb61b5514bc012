use rc_validator::das::{trim_0x, DasClient, DasError, Json};

fn client() -> DasClient {
    DasClient::new("http://127.0.0.1:4177".to_string())
}

fn object(members: Vec<(&str, Json)>) -> Json {
    Json::Object(members.into_iter().map(|(k, v)| (k.as_bytes().to_vec(), v)).collect())
}

fn answer(result: Json) -> Json {
    object(vec![("jsonrpc", Json::text("2.0")), ("result", result), ("id", Json::Number(Some(1)))])
}

fn block(number: Json, hash: Json) -> Json {
    answer(Json::Array(vec![number, hash]))
}

#[test]
fn client_keeps_its_url() {
    assert_eq!(client().rpc_url(), "http://127.0.0.1:4177");
}

#[test]
fn latest_block_is_read_from_the_result() {
    let response = block(Json::Number(Some(5)), Json::text("0xabcd"));
    assert_eq!(client().get_latest_block(&response), Ok(Some((5, vec![0xab, 0xcd]))));
}

#[test]
fn hash_may_come_without_prefix_in_either_case_or_with_several_prefixes() {
    let bare = block(Json::Number(Some(1)), Json::text("00ff10"));
    assert_eq!(client().get_latest_block(&bare), Ok(Some((1, vec![0x00, 0xff, 0x10]))));
    let upper = block(Json::Number(Some(1)), Json::text("0xABcDeF"));
    assert_eq!(client().get_latest_block(&upper), Ok(Some((1, vec![0xab, 0xcd, 0xef]))));
    let twice = block(Json::Number(Some(1)), Json::text("0x0x12"));
    assert_eq!(client().get_latest_block(&twice), Ok(Some((1, vec![0x12]))));
    let empty = block(Json::Number(Some(1)), Json::text("0x"));
    assert_eq!(client().get_latest_block(&empty), Ok(Some((1, vec![]))));
}

#[test]
fn only_the_low_32_bits_of_the_number_count() {
    let response = block(Json::Number(Some((1u64 << 32) + 7)), Json::text("0x00"));
    assert_eq!(client().get_latest_block(&response), Ok(Some((7, vec![0]))));
    let largest = block(Json::Number(Some(u32::MAX as u64)), Json::text("0x00"));
    assert_eq!(client().get_latest_block(&largest), Ok(Some((u32::MAX, vec![0]))));
}

#[test]
fn answer_without_an_array_result_means_no_block() {
    assert_eq!(client().get_latest_block(&answer(Json::Null)), Ok(None));
    assert_eq!(client().get_latest_block(&answer(Json::Bool(true))), Ok(None));
    assert_eq!(client().get_latest_block(&object(vec![("error", Json::text("x"))])), Ok(None));
    assert_eq!(client().get_latest_block(&Json::Array(vec![])), Ok(None));
    assert_eq!(client().get_latest_block(&Json::Null), Ok(None));
}

#[test]
fn malformed_block_number_is_an_error() {
    assert_eq!(client().get_latest_block(&answer(Json::Array(vec![]))), Err(DasError::InvalidNumber));
    let text = block(Json::text("5"), Json::text("0x00"));
    assert_eq!(client().get_latest_block(&text), Err(DasError::InvalidNumber));
    let negative = block(Json::Number(None), Json::text("0x00"));
    assert_eq!(client().get_latest_block(&negative), Err(DasError::InvalidNumber));
}

#[test]
fn malformed_block_hash_is_an_error() {
    let missing = answer(Json::Array(vec![Json::Number(Some(1))]));
    assert_eq!(client().get_latest_block(&missing), Err(DasError::InvalidHash));
    let number = block(Json::Number(Some(1)), Json::Number(Some(2)));
    assert_eq!(client().get_latest_block(&number), Err(DasError::InvalidHash));
    let odd = block(Json::Number(Some(1)), Json::text("0xabc"));
    assert_eq!(client().get_latest_block(&odd), Err(DasError::InvalidHex));
    let letters = block(Json::Number(Some(1)), Json::text("0xzz"));
    assert_eq!(client().get_latest_block(&letters), Err(DasError::InvalidHex));
    let inner_prefix = block(Json::Number(Some(1)), Json::text("ab0x"));
    assert_eq!(client().get_latest_block(&inner_prefix), Err(DasError::InvalidHex));
}

#[test]
fn first_member_of_a_name_is_taken() {
    let response = object(vec![
        ("result", Json::Bool(true)),
        ("result", Json::Bool(false)),
    ]);
    assert_eq!(client().check_data_availability(&response), Ok(Some(true)));
    assert!(matches!(response.get(b"result"), Some(Json::Bool(true))));
    assert!(response.get(b"other").is_none());
    assert!(Json::Null.get(b"result").is_none());
}

#[test]
fn availability_is_the_flag_of_the_result() {
    assert_eq!(client().check_data_availability(&answer(Json::Bool(true))), Ok(Some(true)));
    assert_eq!(client().check_data_availability(&answer(Json::Bool(false))), Ok(Some(false)));
    assert_eq!(client().check_data_availability(&object(vec![])), Ok(None));
    assert_eq!(client().check_data_availability(&Json::Array(vec![])), Ok(None));
    assert_eq!(
        client().check_data_availability(&answer(Json::Null)),
        Err(DasError::UnexpectedFormat)
    );
    assert_eq!(
        client().check_data_availability(&answer(Json::text("true"))),
        Err(DasError::UnexpectedFormat)
    );
}

#[test]
fn prefixes_are_trimmed() {
    assert_eq!(trim_0x(b"0xab"), b"ab".to_vec());
    assert_eq!(trim_0x(b"0x0x0xab"), b"ab".to_vec());
    assert_eq!(trim_0x(b"ab0x"), b"ab0x".to_vec());
    assert_eq!(trim_0x(b"0"), b"0".to_vec());
    assert_eq!(trim_0x(b"0X12"), b"0X12".to_vec());
    assert_eq!(trim_0x(b""), Vec::<u8>::new());
}

#[test]
fn error_texts() {
    assert_eq!(DasError::InvalidNumber.message(), "Invalid number format");
    assert_eq!(DasError::InvalidHash.message(), "Invalid hash format");
    assert_eq!(DasError::InvalidHex.message(), "Invalid hash encoding");
    assert_eq!(DasError::UnexpectedFormat.message(), "Unexpected response format");
}

fn expect_call(request: Json, method: &str) -> Vec<Json> {
    let entries = match request {
        Json::Object(entries) => entries,
        other => panic!("not an object: {:?}", other),
    };
    let names: Vec<&[u8]> = entries.iter().map(|(k, _)| k.as_slice()).collect();
    assert_eq!(names, vec![&b"method"[..], &b"params"[..], &b"id"[..], &b"jsonrpc"[..]]);
    let mut values = entries.into_iter().map(|(_, v)| v);
    assert!(matches!(values.next(), Some(Json::Text(name)) if name == method.as_bytes()));
    let params = match values.next() {
        Some(Json::Array(params)) => params,
        other => panic!("no parameters: {:?}", other),
    };
    assert!(matches!(values.next(), Some(Json::Number(Some(1)))));
    assert!(matches!(values.next(), Some(Json::Text(version)) if version == b"2.0"));
    params
}

#[test]
fn requests_are_json_rpc_calls() {
    assert!(expect_call(client().latest_block_request(), "das_last").is_empty());
    let params = expect_call(client().availability_request("abcd"), "das_isAvailable");
    assert_eq!(params.len(), 1);
    assert!(matches!(&params[0], Json::Text(hash) if hash == b"abcd"));
}
