use etherscan::{
    conclude, conclude_decoded, conclude_list, unwrap_envelope, Balance, CoercionError,
    DecodeError, Error, GasOracle, GasOracleFields, MinedBlock, MinedBlockFields, Reply,
    Response, ResponseError, StatusCode, API,
};

fn text(s: &str) -> String {
    s.to_string()
}

fn oracle_fields() -> GasOracleFields {
    GasOracleFields {
        last_block: text("100"),
        safe_gas_price: text("5"),
        propose_gas_price: text("7"),
    }
}

fn block_fields(number: &str) -> MinedBlockFields {
    MinedBlockFields {
        block_number: text(number),
        timestamp: text("1491118514"),
        block_rewards: text("5194770940000000000"),
    }
}

fn envelope<F>(status: &str, message: &str, result: F) -> Reply<F> {
    Reply::Envelope { status: text(status), message: text(message), result }
}

#[test]
fn unwrap_envelope_gives_the_payload_of_a_success() {
    assert_eq!(unwrap_envelope(Response::new("1", text("OK"), 3u8)), Ok(3));
}

#[test]
fn unwrap_envelope_gives_the_envelope_error_of_a_failure() {
    assert_eq!(
        unwrap_envelope(Response::new("0", text("NOTOK"), 3u8)),
        Err(Error::Envelope(ResponseError {
            status_code: StatusCode::Error,
            message: text("NOTOK"),
            result: 3,
        }))
    );
}

#[test]
fn failed_transport_is_a_transport_error() {
    assert_eq!(
        conclude::<GasOracle>(Reply::Failed(text("connection refused"))),
        Err(Error::Transport(text("connection refused")))
    );
    assert_eq!(
        conclude_list::<MinedBlock>(Reply::Failed(text("dns"))),
        Err(Error::Transport(text("dns")))
    );
    assert_eq!(
        API::fetch_balance(Reply::Failed(text("reset"))),
        Err(Error::Transport(text("reset")))
    );
}

#[test]
fn malformed_body_is_a_decode_error() {
    assert_eq!(
        conclude::<GasOracle>(Reply::Malformed(text("missing field `result`"))),
        Err(Error::Decode(DecodeError::Malformed(text("missing field `result`"))))
    );
    assert_eq!(
        conclude_list::<MinedBlock>(Reply::Malformed(text("expected a sequence"))),
        Err(Error::Decode(DecodeError::Malformed(text("expected a sequence"))))
    );
    assert_eq!(
        API::fetch_balance(Reply::Malformed(text("expected a string"))),
        Err(Error::Decode(DecodeError::Malformed(text("expected a string"))))
    );
}

#[test]
fn record_of_a_success_is_decoded() {
    assert_eq!(
        conclude::<GasOracle>(envelope("1", "OK", oracle_fields())),
        Ok(GasOracle { last_block: 100, safe_gas_price: 5, propose_gas_price: 7 })
    );
}

#[test]
fn record_of_an_unknown_status_is_let_through() {
    assert_eq!(
        conclude::<GasOracle>(envelope("7", "?", oracle_fields())),
        Ok(GasOracle { last_block: 100, safe_gas_price: 5, propose_gas_price: 7 })
    );
}

#[test]
fn record_of_a_failure_is_carried_by_the_envelope_error() {
    assert_eq!(
        conclude::<GasOracle>(envelope("0", "NOTOK", oracle_fields())),
        Err(Error::Envelope(ResponseError {
            status_code: StatusCode::Error,
            message: text("NOTOK"),
            result: GasOracle { last_block: 100, safe_gas_price: 5, propose_gas_price: 7 },
        }))
    );
}

#[test]
fn bad_number_in_a_record_is_a_decode_error_whatever_the_status() {
    for status in ["1", "0", "9"] {
        let mut fields = oracle_fields();
        fields.safe_gas_price = text("cheap");
        assert_eq!(
            conclude::<GasOracle>(envelope(status, "OK", fields)),
            Err(Error::Decode(DecodeError::InvalidNumber))
        );
    }
}

#[test]
fn list_of_a_success_keeps_its_order() {
    let reply = envelope("1", "OK", vec![block_fields("3"), block_fields("1"), block_fields("2")]);
    let blocks = conclude_list::<MinedBlock>(reply).unwrap();
    let numbers: Vec<u64> = blocks.iter().map(|b| b.block_number).collect();
    assert_eq!(numbers, vec![3, 1, 2]);
}

#[test]
fn list_of_a_failure_is_carried_by_the_envelope_error() {
    let reply = envelope("0", "NOTOK", vec![block_fields("3")]);
    assert_eq!(
        conclude_list::<MinedBlock>(reply),
        Err(Error::Envelope(ResponseError {
            status_code: StatusCode::Error,
            message: text("NOTOK"),
            result: vec![MinedBlock {
                block_number: 3,
                timestamp: 1491118514,
                block_rewards: 5_194_770_940_000_000_000,
            }],
        }))
    );
}

#[test]
fn list_with_one_bad_record_is_a_decode_error_whatever_the_status() {
    for status in ["1", "0", ""] {
        let reply = envelope(status, "OK", vec![block_fields("3"), block_fields("three")]);
        assert_eq!(
            conclude_list::<MinedBlock>(reply),
            Err(Error::Decode(DecodeError::InvalidNumber))
        );
    }
}

#[test]
fn empty_list_of_a_success_is_empty() {
    let reply = envelope("1", "OK", Vec::<MinedBlockFields>::new());
    assert_eq!(conclude_list::<MinedBlock>(reply), Ok(Vec::new()));
}

#[test]
fn amount_of_a_success_is_a_number() {
    assert_eq!(
        API::fetch_balance(envelope("1", "OK", text("40891626854930000000999"))),
        Ok(40_891_626_854_930_000_000_999)
    );
    assert_eq!(API::fetch_balance(envelope("1", "OK", text("0"))), Ok(0));
}

#[test]
fn amount_of_an_unknown_status_is_a_number() {
    assert_eq!(API::fetch_balance(envelope("", "", text("12"))), Ok(12));
}

#[test]
fn amount_of_a_failure_is_carried_as_text() {
    assert_eq!(
        API::fetch_balance(envelope("0", "NOTOK", text("Error! Invalid address format"))),
        Err(Error::Envelope(ResponseError {
            status_code: StatusCode::Error,
            message: text("NOTOK"),
            result: Balance(text("Error! Invalid address format")),
        }))
    );
    assert_eq!(
        API::fetch_balance(envelope("0", "NOTOK", text("0"))),
        Err(Error::Envelope(ResponseError {
            status_code: StatusCode::Error,
            message: text("NOTOK"),
            result: Balance(text("0")),
        }))
    );
}

#[test]
fn amount_that_is_no_number_is_a_coercion_error() {
    assert_eq!(
        API::fetch_balance(envelope("1", "OK", text("a lot"))),
        Err(Error::Coercion(CoercionError::InvalidDigit))
    );
    assert_eq!(
        API::fetch_balance(envelope("1", "OK", text(""))),
        Err(Error::Coercion(CoercionError::Empty))
    );
    assert_eq!(
        API::fetch_balance(envelope("1", "OK", text("340282366920938463463374607431768211456"))),
        Err(Error::Coercion(CoercionError::PosOverflow))
    );
}

#[test]
fn the_four_errors_of_a_call_differ() {
    let transport = API::fetch_balance(Reply::Failed(text("x"))).unwrap_err();
    let decode = API::fetch_balance(Reply::Malformed(text("x"))).unwrap_err();
    let reported = API::fetch_balance(envelope("0", "x", text("x"))).unwrap_err();
    let coercion = API::fetch_balance(envelope("1", "x", text("x"))).unwrap_err();
    assert!(matches!(transport, Error::Transport(_)));
    assert!(matches!(decode, Error::Decode(_)));
    assert!(matches!(reported, Error::Envelope(_)));
    assert!(matches!(coercion, Error::Coercion(_)));
}

#[test]
fn decoded_payload_of_a_success_is_the_payload() {
    let reply = Reply::Envelope { status: text("1"), message: text("OK"), result: Ok(2.5f64) };
    assert_eq!(conclude_decoded(reply), Ok(2.5));
}

#[test]
fn decoded_payload_of_a_failure_is_carried_by_the_envelope_error() {
    let reply = Reply::Envelope { status: text("0"), message: text("NOTOK"), result: Ok(7u8) };
    assert_eq!(
        conclude_decoded(reply),
        Err(Error::Envelope(ResponseError {
            status_code: StatusCode::Error,
            message: text("NOTOK"),
            result: 7,
        }))
    );
}

#[test]
fn payload_that_failed_to_decode_is_a_decode_error_whatever_the_status() {
    for status in ["1", "0", "x"] {
        let reply: Reply<Result<u8, DecodeError>> = Reply::Envelope {
            status: text(status),
            message: text("OK"),
            result: Err(DecodeError::InvalidNumber),
        };
        assert_eq!(conclude_decoded(reply), Err(Error::Decode(DecodeError::InvalidNumber)));
    }
}

#[test]
fn reply_without_an_envelope_is_an_error_before_any_decoding() {
    let failed: Reply<Result<u8, DecodeError>> = Reply::Failed(text("timeout"));
    assert_eq!(conclude_decoded(failed), Err(Error::Transport(text("timeout"))));
    let malformed: Reply<Result<u8, DecodeError>> = Reply::Malformed(text("EOF"));
    assert_eq!(
        conclude_decoded(malformed),
        Err(Error::Decode(DecodeError::Malformed(text("EOF"))))
    );
}
