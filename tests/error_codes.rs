use next_error_code::code::{compose_code, record_text, registry_key};
use next_error_code::digits::{to_decimal, to_hex, to_hex8};
use next_error_code::message::{error_argument, stringify_new_error_arg, wrap_with_code, JsExpr};
use next_error_code::occurrences::Occurrences;
use next_error_code::registry::{
    after_write_attempt, check_registry, parse_mode, ConfigField, Mode, TransformError, WriteStep,
    MAX_WRITE_ATTEMPTS,
};
use next_error_code::transform::TransformVisitor;
use std::hash::{DefaultHasher, Hash, Hasher};

fn s(text: &str) -> String {
    text.to_string()
}

fn ident(name: &str) -> JsExpr {
    JsExpr::Ident(s(name))
}

fn lit(text: &str) -> JsExpr {
    JsExpr::Str(s(text))
}

fn new_error(args: Vec<JsExpr>) -> JsExpr {
    JsExpr::New(Box::new(ident("Error")), Some(args))
}

fn dry_visitor(file: &str) -> TransformVisitor {
    TransformVisitor::new(s("0000000000"), s(file), Mode::Generate, true)
}

#[test]
fn stringify_plain_literal() {
    assert_eq!(stringify_new_error_arg(&lit("Something went wrong")), "Something went wrong");
    assert_eq!(stringify_new_error_arg(&lit("")), "");
}

#[test]
fn stringify_template_with_identifier() {
    let tpl = JsExpr::Tpl(vec![s("a"), s("b")], vec![ident("x")]);
    assert_eq!(stringify_new_error_arg(&tpl), "a%sb");
}

#[test]
fn stringify_template_recurses_into_parts() {
    let inner = JsExpr::Add(Box::new(lit("in")), Box::new(ident("y")));
    let tpl = JsExpr::Tpl(vec![s("<"), s(">")], vec![inner]);
    assert_eq!(stringify_new_error_arg(&tpl), "<in%s>");
}

#[test]
fn stringify_concatenation() {
    let both = JsExpr::Add(Box::new(lit("x")), Box::new(lit("y")));
    assert_eq!(stringify_new_error_arg(&both), "xy");
    let left_ident = JsExpr::Add(Box::new(ident("ident")), Box::new(lit("y")));
    assert_eq!(stringify_new_error_arg(&left_ident), "%sy");
}

#[test]
fn stringify_other_binary_operators_are_placeholders() {
    let minus = JsExpr::Bin(Box::new(ident("a")), Box::new(ident("b")));
    assert_eq!(stringify_new_error_arg(&minus), "%s");
    let or_else = JsExpr::Bin(Box::new(ident("a")), Box::new(lit("x")));
    assert_eq!(stringify_new_error_arg(&or_else), "%s");
    let tpl = JsExpr::Tpl(vec![s("v: "), s("")], vec![or_else]);
    assert_eq!(stringify_new_error_arg(&tpl), "v: %s");
}

#[test]
fn stringify_other_shapes_are_placeholders() {
    assert_eq!(stringify_new_error_arg(&JsExpr::OtherLit), "%s");
    assert_eq!(stringify_new_error_arg(&JsExpr::Other), "%s");
    let member = JsExpr::Member(Box::new(ident("err")), s("message"));
    assert_eq!(stringify_new_error_arg(&member), "%s");
    let call = JsExpr::Call(Box::new(ident("f")), vec![]);
    assert_eq!(stringify_new_error_arg(&call), "%s");
}

#[test]
fn digits_render() {
    assert_eq!(to_decimal(0), "0");
    assert_eq!(to_decimal(1234), "1234");
    assert_eq!(to_hex(255), "ff");
    assert_eq!(to_hex8(0), "00000000");
    assert_eq!(to_hex8(0x2a), "0000002a");
    assert_eq!(to_hex8(0x1_0000_0000), "100000000");
    assert_eq!(to_hex8(u64::MAX), "ffffffffffffffff");
}

#[test]
fn record_text_is_canonical_json() {
    assert_eq!(
        record_text(&s("/a.js"), &s("boom %s"), 1),
        "{\"error_message\":\"boom %s\",\"file_path\":\"/a.js\",\"occurrence_count\":1}"
    );
    assert_eq!(
        record_text(&s("/c.js"), &s("a\\b\n\t\u{1}\u{1f}\u{8}\u{c}\r\u{7f}é"), 2),
        "{\"error_message\":\"a\\\\b\\n\\t\\u0001\\u001f\\b\\f\\r\u{7f}é\",\"file_path\":\"/c.js\",\"occurrence_count\":2}"
    );
    assert_eq!(
        record_text(&s("/b.js"), &s("say \"hi\""), 12),
        "{\"error_message\":\"say \\\"hi\\\"\",\"file_path\":\"/b.js\",\"occurrence_count\":12}"
    );
}

#[test]
fn registry_key_is_the_default_hash_in_hex() {
    let record = s("{\"error_message\":\"m\",\"file_path\":\"/f\",\"occurrence_count\":1}");
    let mut hasher = DefaultHasher::new();
    record.hash(&mut hasher);
    let expected = format!("{:08x}", hasher.finish());
    let key = registry_key(&record);
    assert_eq!(key, expected);
    assert_ne!(key, record);
    assert_eq!(registry_key(&record), key);
}

#[test]
fn compose_code_prefixes_commit() {
    assert_eq!(compose_code(&s("abc"), &s("0011")), "Eabc0011");
}

#[test]
fn occurrences_count_per_template() {
    let mut occ = Occurrences::new();
    assert_eq!(occ.next_occurrence(&s("a")), 1);
    assert_eq!(occ.next_occurrence(&s("b")), 1);
    assert_eq!(occ.next_occurrence(&s("a")), 2);
    assert_eq!(occ.next_occurrence(&s("a")), 3);
    assert_eq!(occ.count_of(&s("a")), 3);
    assert_eq!(occ.count_of(&s("b")), 1);
    assert_eq!(occ.count_of(&s("c")), 0);
}

#[test]
fn same_message_twice_gets_counts_one_and_two() {
    let mut v = dry_visitor("/test/file.js");
    let arg = lit("same");
    let first = v.get_error_code(&arg);
    let second = v.get_error_code(&arg);
    assert!(first.record.ends_with("\"occurrence_count\":1}"));
    assert!(second.record.ends_with("\"occurrence_count\":2}"));
    assert_ne!(first.code, second.code);
    assert_eq!(v.occurrence_count(&s("same")), 2);
}

#[test]
fn different_files_get_different_codes() {
    let mut a = dry_visitor("/a.js");
    let mut b = dry_visitor("/b.js");
    let arg = lit("same");
    let ca = a.get_error_code(&arg);
    let cb = b.get_error_code(&arg);
    assert_ne!(ca.code, cb.code);
    assert_ne!(ca.key, cb.key);
}

#[test]
fn fresh_visitors_do_not_share_counts() {
    let mut a = dry_visitor("/a.js");
    let arg = lit("same");
    let first = a.get_error_code(&arg);
    let mut again = dry_visitor("/a.js");
    let repeat = again.get_error_code(&arg);
    assert_eq!(first.code, repeat.code);
}

#[test]
fn wrapped_expression_is_not_rewritten_again() {
    let mut v = dry_visitor("/test/file.js");
    let (wrapped, issued) = v.visit_expr(new_error(vec![lit("boom")]));
    let issued = issued.unwrap();
    let (again, none) = v.visit_expr(wrapped);
    assert!(none.is_none());
    match again {
        JsExpr::Call(callee, args) => {
            assert!(matches!(*callee, JsExpr::Member(_, ref p) if p == "assign"));
            assert_eq!(args.len(), 2);
            match &args[1] {
                JsExpr::Object(keys, values) => {
                    assert_eq!(keys, &vec![s("__NEXT_ERROR_CODE")]);
                    assert!(matches!(&values[0], JsExpr::Str(c) if *c == issued.code));
                }
                _ => panic!("expected the code object"),
            }
        }
        _ => panic!("expected the wrapper call"),
    }
    assert_eq!(v.occurrence_count(&s("boom")), 1);
}

#[test]
fn only_bare_error_with_arguments_matches() {
    assert!(error_argument(&new_error(vec![lit("m")])).is_some());
    assert!(error_argument(&new_error(vec![])).is_none());
    assert!(error_argument(&JsExpr::New(Box::new(ident("Error")), None)).is_none());
    assert!(error_argument(&JsExpr::New(Box::new(ident("TypeError")), Some(vec![lit("m")]))).is_none());
    let member = JsExpr::Member(Box::new(ident("errors")), s("Error"));
    assert!(error_argument(&JsExpr::New(Box::new(member), Some(vec![lit("m")]))).is_none());
    let call = JsExpr::Call(Box::new(ident("Error")), vec![lit("m")]);
    assert!(error_argument(&call).is_none());
    let wrapped = wrap_with_code(new_error(vec![lit("m")]), s("E1"));
    assert!(error_argument(&wrapped).is_none());
}

#[test]
fn non_sites_are_left_alone() {
    let mut v = dry_visitor("/test/file.js");
    let (out, issued) = v.visit_expr(new_error(vec![]));
    assert!(issued.is_none());
    assert!(matches!(out, JsExpr::New(_, Some(ref a)) if a.is_empty()));
}

#[test]
fn realistic_api_handler_codes() {
    let mut v = dry_visitor("/test/file.js");
    let status_text = JsExpr::Member(Box::new(ident("response")), s("statusText"));
    let fetch_failed = JsExpr::Tpl(
        vec![s("Failed to fetch user "), s(": "), s("")],
        vec![ident("userId"), status_text],
    );
    assert_eq!(stringify_new_error_arg(&fetch_failed), "Failed to fetch user %s: %s");
    let (_, first) = v.visit_expr(new_error(vec![fetch_failed]));
    assert_eq!(first.unwrap().code, "E000000000026c63d53d605f848");
    let err_message = JsExpr::Member(Box::new(ident("err")), s("message"));
    let request_failed = JsExpr::Tpl(vec![s("Request failed: "), s("")], vec![err_message]);
    let (_, second) = v.visit_expr(new_error(vec![request_failed]));
    assert_eq!(second.unwrap().code, "E0000000000a5151f4ce82c5c79");
}

#[test]
fn nested_error_is_seen_as_placeholder() {
    let mut v = dry_visitor("/test/file.js");
    let (inner, _) = v.visit_expr(new_error(vec![lit("inner")]));
    let outer_arg = JsExpr::Add(Box::new(lit("outer: ")), Box::new(inner));
    let (_, issued) = v.visit_expr(new_error(vec![outer_arg]));
    assert!(issued.unwrap().record.starts_with("{\"error_message\":\"outer: %s\""));
}

#[test]
fn check_mode_requires_registry_entry() {
    assert!(check_registry(true, &s("abcd0123")).is_ok());
    match check_registry(false, &s("abcd0123")) {
        Err(TransformError::RegistryMissing(k)) => assert_eq!(k, "abcd0123"),
        other => panic!("unexpected {:?}", other),
    }
}

#[test]
fn write_retries_then_aborts() {
    assert_eq!(MAX_WRITE_ATTEMPTS, 3);
    assert_eq!(after_write_attempt(0, false), WriteStep::Retry);
    assert_eq!(after_write_attempt(1, false), WriteStep::Retry);
    assert_eq!(after_write_attempt(2, true), WriteStep::Done);
    assert_eq!(after_write_attempt(2, false), WriteStep::Abort);
    assert_eq!(after_write_attempt(0, true), WriteStep::Done);
}

#[test]
fn mode_parsing() {
    assert_eq!(parse_mode(&s("check")).unwrap(), Mode::Check);
    assert_eq!(parse_mode(&s("generate")).unwrap(), Mode::Generate);
    match parse_mode(&s("compile")) {
        Err(TransformError::UnknownMode(m)) => assert_eq!(m, "compile"),
        other => panic!("unexpected {:?}", other),
    }
}

#[test]
fn config_fields_are_required() {
    let missing_commit = TransformVisitor::from_config(None, Some(s("/f")), Some(s("check")), false);
    assert!(matches!(missing_commit, Err(TransformError::MissingConfig(ConfigField::CommitHash))));
    let missing_path = TransformVisitor::from_config(Some(s("c")), None, Some(s("check")), false);
    assert!(matches!(missing_path, Err(TransformError::MissingConfig(ConfigField::FilePath))));
    let missing_mode = TransformVisitor::from_config(Some(s("c")), Some(s("/f")), None, false);
    assert!(matches!(missing_mode, Err(TransformError::MissingConfig(ConfigField::Mode))));
    let bad_mode = TransformVisitor::from_config(Some(s("c")), Some(s("/f")), Some(s("x")), false);
    assert!(matches!(bad_mode, Err(TransformError::UnknownMode(_))));
    let ok = TransformVisitor::from_config(Some(s("c")), Some(s("/f")), Some(s("generate")), false).unwrap();
    assert_eq!(ok.registry_action(), Some(Mode::Generate));
    let dry = TransformVisitor::from_config(Some(s("c")), Some(s("/f")), Some(s("check")), true).unwrap();
    assert_eq!(dry.registry_action(), None);
}

#[test]
fn error_descriptions() {
    let missing = TransformError::MissingConfig(ConfigField::FilePath);
    assert_eq!(missing.describe(), "filePath not found in config");
    let mode = TransformError::UnknownMode(s("compile"));
    assert_eq!(mode.describe(), "Mode must be 'check' or 'generate', got 'compile'");
    let registry = TransformError::RegistryMissing(s("00ab"));
    let text = registry.describe();
    assert!(text.starts_with("ERROR: File /packages/next/error_codes/00ab.json does not exist."));
    assert!(text.contains("1. Run `pnpm build`"));
    assert!(text.contains("2. Commit all file changes"));
    let write = TransformError::WriteFailed(s("disk full"));
    assert_eq!(write.describe(), "Failed to write error metadata after 3 attempts: disk full");
}
