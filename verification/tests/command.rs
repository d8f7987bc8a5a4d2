use redisless::command::{get_bytes_vec, Command};
use redisless::protocol::RESP;

#[test]
fn set_command() {
    let commands: Vec<&[u8]> = vec![b"SET", b"set"];

    for cmd in commands {
        let resp = vec![
            RESP::BulkString(cmd.to_vec()),
            RESP::BulkString(b"mykey".to_vec()),
            RESP::BulkString(b"value".to_vec()),
        ];

        let command = Command::parse(resp);

        assert_eq!(command, Command::SET(b"mykey".to_vec(), b"value".to_vec()));
    }
}

#[test]
fn set_command_capitalized() {
    let resp = vec![
        RESP::BulkString(b"Set".to_vec()),
        RESP::BulkString(b"mykey".to_vec()),
        RESP::BulkString(b"value".to_vec()),
    ];

    let command = Command::parse(resp);

    assert_eq!(command, Command::SET(b"mykey".to_vec(), b"value".to_vec()));
}

#[test]
fn set_command_wrong_arity() {
    let resp = vec![
        RESP::BulkString(b"SET".to_vec()),
        RESP::BulkString(b"mykey".to_vec()),
    ];

    let command = Command::parse(resp);

    assert_eq!(
        command,
        Command::Error("wrong number of arguments for 'SET' command")
    );
}

#[test]
fn set_command_non_textual_argument() {
    let resp = vec![
        RESP::BulkString(b"SET".to_vec()),
        RESP::Integer(7),
        RESP::BulkString(b"value".to_vec()),
    ];

    let command = Command::parse(resp);

    assert_eq!(
        command,
        Command::Error("wrong number of arguments for 'SET' command")
    );
}

#[test]
fn get_command() {
    for cmd in [&b"GET"[..], b"get", b"Get"] {
        let resp = vec![
            RESP::BulkString(cmd.to_vec()),
            RESP::BulkString(b"mykey".to_vec()),
        ];

        let command = Command::parse(resp);

        assert_eq!(command, Command::GET(b"mykey".to_vec()));
    }
}

#[test]
fn get_command_missing_key() {
    let resp = vec![RESP::BulkString(b"GET".to_vec())];

    let command = Command::parse(resp);

    assert_eq!(
        command,
        Command::Error("wrong number of arguments for 'GET' command")
    );
}

#[test]
fn del_command() {
    for cmd in [&b"DEL"[..], b"del", b"Del"] {
        let resp = vec![
            RESP::BulkString(cmd.to_vec()),
            RESP::BulkString(b"mykey".to_vec()),
        ];

        let command = Command::parse(resp);

        assert_eq!(command, Command::DEL(b"mykey".to_vec()));
    }
}

#[test]
fn del_command_wrong_arity() {
    let resp = vec![
        RESP::BulkString(b"DEL".to_vec()),
        RESP::BulkString(b"k1".to_vec()),
        RESP::BulkString(b"k2".to_vec()),
    ];

    let command = Command::parse(resp);

    assert_eq!(
        command,
        Command::Error("wrong number of arguments for 'DEL' command")
    );
}

#[test]
fn info_ping_quit_commands() {
    for cmd in [&b"INFO"[..], b"info", b"Info"] {
        let command = Command::parse(vec![RESP::BulkString(cmd.to_vec())]);
        assert_eq!(command, Command::INFO);
    }
    for cmd in [&b"PING"[..], b"ping", b"Ping"] {
        let command = Command::parse(vec![RESP::BulkString(cmd.to_vec())]);
        assert_eq!(command, Command::PING);
    }
    for cmd in [&b"QUIT"[..], b"quit", b"Quit"] {
        let command = Command::parse(vec![RESP::BulkString(cmd.to_vec())]);
        assert_eq!(command, Command::QUIT);
    }
}

#[test]
fn info_ping_quit_ignore_trailing_tokens() {
    let resp = vec![
        RESP::BulkString(b"PING".to_vec()),
        RESP::BulkString(b"extra".to_vec()),
        RESP::Integer(3),
    ];
    assert_eq!(Command::parse(resp), Command::PING);

    let resp = vec![
        RESP::BulkString(b"quit".to_vec()),
        RESP::BulkString(b"now".to_vec()),
    ];
    assert_eq!(Command::parse(resp), Command::QUIT);

    let resp = vec![RESP::BulkString(b"Info".to_vec()), RESP::Null];
    assert_eq!(Command::parse(resp), Command::INFO);
}

#[test]
fn not_supported_command() {
    let resp = vec![
        RESP::BulkString(b"FOO".to_vec()),
        RESP::BulkString(b"x".to_vec()),
        RESP::BulkString(b"y".to_vec()),
    ];

    let command = Command::parse(resp);

    assert_eq!(
        command,
        Command::NotSupported("Command 'FOO' is not supported".to_string())
    );
}

#[test]
fn not_supported_keeps_original_casing() {
    let resp = vec![RESP::BulkString(b"sEt".to_vec())];

    let command = Command::parse(resp);

    assert_eq!(
        command,
        Command::NotSupported("Command 'sEt' is not supported".to_string())
    );
}

#[test]
fn not_supported_verb_with_invalid_utf8() {
    let resp = vec![RESP::BulkString(vec![0xff, 0xfe, 0x41])];

    let command = Command::parse(resp);

    assert_eq!(
        command,
        Command::NotSupported("Command '?' is not supported".to_string())
    );
}

#[test]
fn empty_request() {
    let command = Command::parse(vec![]);

    assert_eq!(command, Command::Error("Invalid command to parse"));
}

#[test]
fn non_textual_first_token() {
    for first in [RESP::Integer(42), RESP::Null, RESP::ErrorReply(b"oops".to_vec())] {
        let command = Command::parse(vec![first, RESP::BulkString(b"k".to_vec())]);
        assert_eq!(command, Command::Error("Invalid command to parse"));
    }
}

#[test]
fn array_token_is_not_textual() {
    let nested = RESP::Array(vec![RESP::BulkString(b"GET".to_vec())]);
    let command = Command::parse(vec![nested]);
    assert_eq!(command, Command::Error("Invalid command to parse"));
}

#[test]
fn simple_string_tokens_are_textual() {
    let resp = vec![
        RESP::String(b"GET".to_vec()),
        RESP::String(b"mykey".to_vec()),
    ];

    let command = Command::parse(resp);

    assert_eq!(command, Command::GET(b"mykey".to_vec()));
}

#[test]
fn decoding_is_idempotent() {
    let request = || {
        vec![
            RESP::BulkString(b"SET".to_vec()),
            RESP::BulkString(b"mykey".to_vec()),
            RESP::BulkString(b"value".to_vec()),
        ]
    };

    let first = Command::parse(request());
    let second = Command::parse(request());

    assert_eq!(first, second);
}

#[test]
fn decoded_buffers_are_independent_copies() {
    let mut key = b"mykey".to_vec();

    let resp = vec![
        RESP::BulkString(b"GET".to_vec()),
        RESP::BulkString(key.clone()),
    ];
    let command = Command::parse(resp);

    key[0] = b'X';

    assert_eq!(command, Command::GET(b"mykey".to_vec()));
}

#[test]
fn extractor_accepts_only_textual_tokens() {
    let bulk = RESP::BulkString(b"payload".to_vec());
    assert_eq!(get_bytes_vec(Some(&bulk)), Some(b"payload".to_vec()));

    let simple = RESP::String(b"payload".to_vec());
    assert_eq!(get_bytes_vec(Some(&simple)), Some(b"payload".to_vec()));

    assert_eq!(get_bytes_vec(Some(&RESP::Integer(1))), None);
    assert_eq!(get_bytes_vec(Some(&RESP::Null)), None);
    assert_eq!(get_bytes_vec(Some(&RESP::ErrorReply(b"e".to_vec()))), None);
    assert_eq!(get_bytes_vec(Some(&RESP::Array(vec![]))), None);
    assert_eq!(get_bytes_vec(None), None);
}

#[test]
fn extractor_accepts_arbitrary_binary_payload() {
    let binary = vec![0u8, 255, 13, 10, 128];
    let token = RESP::BulkString(binary.clone());
    assert_eq!(get_bytes_vec(Some(&token)), Some(binary));
}
