//! Marshalling the raw argument record into its typed form.

use vcs_providers::args::MethodArguments;
use vcs_providers::args::RawMethodArguments;
use vcs_providers::args::encode_string_arg;

fn strings(items: &[&str]) -> Vec<String> {
    items.iter().map(|s| s.to_string()).collect()
}

#[test]
fn zero_key_len_yields_no_args() {
    let record = RawMethodArguments {
        key: Some("ignored".to_string()),
        key_array: Some(strings(&["also", "ignored"])),
        args: strings(&["and", "these"]),
        key_len: 0,
        args_len: 2,
    };
    assert_eq!(MethodArguments::from(record), MethodArguments::NoArgs);
}

#[test]
fn single_key_marshals_to_string_arg() {
    let record = RawMethodArguments {
        key: Some("branch".to_string()),
        key_array: None,
        args: strings(&["first", "second", "third"]),
        key_len: 1,
        args_len: 3,
    };
    match MethodArguments::from(record) {
        MethodArguments::StringArg(key, args) => {
            assert_eq!(key, "branch");
            assert_eq!(args, strings(&["first", "second", "third"]));
            assert_eq!(args.len(), 3);
        }
        other => panic!("expected StringArg, got {:?}", other),
    }
}

#[test]
fn multi_key_marshals_to_array() {
    let record = RawMethodArguments {
        key: None,
        key_array: Some(strings(&["alpha", "beta"])),
        args: strings(&["one"]),
        key_len: 2,
        args_len: 1,
    };
    match MethodArguments::from(record) {
        MethodArguments::Array(keys, args) => {
            assert_eq!(keys, strings(&["alpha", "beta"]));
            assert_eq!(keys.len(), 2);
            assert_eq!(args, strings(&["one"]));
        }
        other => panic!("expected Array, got {:?}", other),
    }
}

#[test]
fn both_keys_absent_falls_back_to_no_args() {
    let record = RawMethodArguments {
        key: None,
        key_array: None,
        args: strings(&[]),
        key_len: 3,
        args_len: 0,
    };
    assert_eq!(MethodArguments::from(record), MethodArguments::NoArgs);
}

#[test]
fn string_arg_round_trip() {
    let record = encode_string_arg("key".to_string(), strings(&["a1", "a2"]));
    assert_eq!(record.key_len, 1);
    assert_eq!(record.args_len, 2);
    assert_eq!(
        MethodArguments::from(record),
        MethodArguments::StringArg("key".to_string(), strings(&["a1", "a2"]))
    );
}

#[test]
fn test_provider_describes_string_arg() {
    let record = encode_string_arg("key".to_string(), strings(&["a1", "a2"]));
    let result = vcs_providers::test(record);
    assert!(result.exists);
    assert_eq!(
        result.data,
        Some("key: String(key); args: [\"a1\", \"a2\"]".to_string())
    );
}

#[test]
fn test_provider_describes_array() {
    let record = RawMethodArguments {
        key: None,
        key_array: Some(strings(&["x", "y"])),
        args: strings(&["1"]),
        key_len: 2,
        args_len: 1,
    };
    let result = vcs_providers::test(record);
    assert!(result.exists);
    assert_eq!(
        result.data,
        Some("key: Array([\"x\", \"y\"]); args: [\"1\"]".to_string())
    );
}

#[test]
fn test_provider_describes_no_args() {
    let record = RawMethodArguments {
        key: None,
        key_array: None,
        args: strings(&[]),
        key_len: 0,
        args_len: 0,
    };
    let result = vcs_providers::test(record);
    assert!(result.exists);
    assert_eq!(result.data, Some("no arguments supplied".to_string()));
}
