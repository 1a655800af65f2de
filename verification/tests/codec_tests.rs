use rasta::codec::{deserialize, serialize};
use rasta::parser::parse;
use rasta::program::CompUnit;

fn parse_ok(src: &str) -> CompUnit {
    match parse(src.to_string(), "test.ca".to_string()) {
        Ok(u) => u,
        Err(e) => panic!("parse failed: {:?}", e),
    }
}

// a source exercising every syntactic form the parser builds
const FULL_SOURCE: &str = "#[top, fast]\n\
const Machine = fn (arg a: u64, arg b: i8, arg p: u64**) -> u64 {\n\
    var x: u64 = [1, 2];\n\
    var s: i8 = \"hi\\n\";\n\
    var t: u64 = [7; 3];\n\
    var e: u64 = [];\n\
    x = a + b * 2;\n\
    *p = 1;\n\
    *q[0] = 2;\n\
    *(a + 1)[2] = 3;\n\
    *(a) = 4;\n\
    x = &y;\n\
    if (a == 1) { x = 1; } else { x = 2; }\n\
    while (a != 0) { break; }\n\
    for i in 1..10 step 2 { continue; }\n\
    assembly(\"nop\", c: a, d: b+1);\n\
    f(1, \"s\", [x, 2]);\n\
    { x = 3; }\n\
    return f(a) + -b;\n\
};\n\
const K = 42 % 5;\n";

#[test]
fn round_trip_reproduces_the_tree() {
    let u = parse_ok(FULL_SOURCE);
    let bytes = serialize(&u);
    let u2 = deserialize(bytes).expect("the encoding of a tree deserializes");
    assert_eq!(u2, u);
}

#[test]
fn round_trip_keeps_every_span() {
    let u = parse_ok("#[top] const Machine = fn (arg a: u64) -> u64 { return a; };");
    let u2 = deserialize(serialize(&u)).expect("the encoding of a tree deserializes");
    assert_eq!(u2.span, u.span);
    assert_eq!(u2, u);
}

#[test]
fn serialization_is_deterministic() {
    let a = serialize(&parse_ok(FULL_SOURCE));
    let b = serialize(&parse_ok(FULL_SOURCE));
    assert_eq!(a, b);
}

#[test]
fn different_trees_have_different_bytes() {
    let a = serialize(&parse_ok("const K = 1;"));
    let b = serialize(&parse_ok("const K = 2;"));
    assert_ne!(a, b);
}

#[test]
fn garbage_is_rejected() {
    assert!(deserialize(vec![]).is_none());
    assert!(deserialize(vec![0x01, 0x02, 0x03]).is_none());
}

#[test]
fn truncated_encoding_is_rejected() {
    let u = parse_ok("const K = 1;");
    let mut bytes = serialize(&u);
    bytes.pop();
    assert!(deserialize(bytes).is_none());
}

#[test]
fn trailing_bytes_are_rejected() {
    let u = parse_ok("const K = 1;");
    let mut bytes = serialize(&u);
    bytes.push(0u8);
    assert!(deserialize(bytes).is_none());
}

#[test]
fn flat_unit_round_trips() {
    // the contract owes success on encodings of flat units
    let u = CompUnit {
        global_items: vec![],
        span: rasta::span::Span::new((1, 1), (1, 1), String::new(), String::new()),
    };
    let u2 = deserialize(serialize(&u)).expect("a flat unit's encoding deserializes");
    assert_eq!(u2, u);
}
