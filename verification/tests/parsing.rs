use bpfctl::cli::GlobalArg;
use bpfctl::parse::{collect_pairs, parse_global, parse_global_arg, parse_key_val, ArgError};
use bpfctl::text::{first_two_fields_exec, join_strings, split_once_exec, str_eq};

#[test]
fn key_val_splits_at_first_equals() {
    assert_eq!(parse_key_val("owner=acme"), Ok(("owner".to_string(), "acme".to_string())));
    assert_eq!(parse_key_val("a=b=c"), Ok(("a".to_string(), "b=c".to_string())));
    assert_eq!(parse_key_val("=v"), Ok(("".to_string(), "v".to_string())));
    assert_eq!(parse_key_val("k="), Ok(("k".to_string(), "".to_string())));
}

#[test]
fn key_val_without_equals_is_invalid() {
    assert_eq!(parse_key_val("novalue"), Err(ArgError::InvalidInput));
    assert_eq!(parse_key_val(""), Err(ArgError::InvalidInput));
}

#[test]
fn key_val_non_ascii() {
    assert_eq!(parse_key_val("clé=été"), Ok(("clé".to_string(), "été".to_string())));
}

#[test]
fn global_arg_reads_hex() {
    let g = parse_global_arg("GLOBAL_u8=0aFF").unwrap();
    assert_eq!(g.name, "GLOBAL_u8");
    assert_eq!(g.value, vec![0x0a, 0xff]);
    let g = parse_global_arg("x=DeadBeef").unwrap();
    assert_eq!(g.value, vec![0xde, 0xad, 0xbe, 0xef]);
}

#[test]
fn global_arg_keeps_only_second_field() {
    let g = parse_global_arg("x=01=02").unwrap();
    assert_eq!(g.name, "x");
    assert_eq!(g.value, vec![0x01]);
}

#[test]
fn global_arg_errors() {
    assert_eq!(parse_global_arg("x").err(), Some(ArgError::InvalidInput));
    assert_eq!(parse_global_arg("x=").err(), Some(ArgError::InvalidInput));
    assert_eq!(parse_global_arg("x=abc").err(), Some(ArgError::InvalidInput));
    assert_eq!(parse_global_arg("x=zz").err(), Some(ArgError::InvalidInput));
    assert_eq!(parse_global_arg("x=é0").err(), Some(ArgError::InvalidInput));
}

#[test]
fn global_arg_reads_back_what_get_shows() {
    let value = vec![0x00u8, 0x7f, 0x80, 0xff];
    let shown = format!("VAR={}", hex::encode_upper(&value));
    let g = parse_global_arg(&shown).unwrap();
    assert_eq!(g.name, "VAR");
    assert_eq!(g.value, value);
}

#[test]
fn global_arg_reads_back_lower_case_hex() {
    let value = vec![0x00u8, 0x7f, 0x80, 0xab, 0xff];
    let written = format!("VAR={}", hex::encode(&value));
    let g = parse_global_arg(&written).unwrap();
    assert_eq!(g.name, "VAR");
    assert_eq!(g.value, value);
}

#[test]
fn global_data_later_value_wins() {
    let args = Some(vec![
        GlobalArg { name: "a".to_string(), value: vec![1] },
        GlobalArg { name: "b".to_string(), value: vec![2] },
        GlobalArg { name: "a".to_string(), value: vec![3, 4] },
    ]);
    let map = parse_global(&args);
    assert_eq!(map.len(), 2);
    assert_eq!(
        map.entries(),
        &vec![("a".to_string(), vec![3u8, 4]), ("b".to_string(), vec![2u8])]
    );
    assert_eq!(parse_global(&None).len(), 0);
}

#[test]
fn metadata_pairs_later_value_wins() {
    let pairs = Some(vec![
        ("owner".to_string(), "x".to_string()),
        ("owner".to_string(), "y".to_string()),
        ("app".to_string(), "z".to_string()),
    ]);
    let map = collect_pairs(&pairs);
    assert_eq!(map.len(), 2);
    assert_eq!(
        map.entries(),
        &vec![("owner".to_string(), "y".to_string()), ("app".to_string(), "z".to_string())]
    );
    assert_eq!(collect_pairs(&None).len(), 0);
}

#[test]
fn text_helpers() {
    assert!(str_eq("ingress", "ingress"));
    assert!(!str_eq("ingress", "egress"));
    assert_eq!(join_strings(&vec!["a".to_string(), "b".to_string(), "c".to_string()], ", "), "a, b, c");
    assert_eq!(join_strings(&vec![], ", "), "");
    assert_eq!(split_once_exec("a:b:c", ':'), Some(("a".to_string(), "b:c".to_string())));
    assert_eq!(first_two_fields_exec("a:b:c", ':'), Some(("a".to_string(), "b".to_string())));
    assert_eq!(first_two_fields_exec("a:", ':'), Some(("a".to_string(), "".to_string())));
    assert_eq!(first_two_fields_exec("abc", ':'), None);
}

#[test]
fn key_val_pieces_rebuild_the_argument() {
    for arg in ["owner=acme", "a=b=c", "=", "k=", "x=y=z="] {
        let (k, v) = parse_key_val(arg).unwrap();
        assert!(!k.contains('='));
        assert_eq!(format!("{k}={v}"), arg);
    }
}
