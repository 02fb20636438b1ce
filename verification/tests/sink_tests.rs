use chainsource::sink::{output_location, Sink};

#[test]
fn output_location_joins_base_chain_and_path() {
    assert_eq!(
        output_location("./output", "avax", "0xabc/Token.sol"),
        "./output/avax/0xabc/Token.sol"
    );
}

#[test]
fn writing_the_same_unit_twice_is_idempotent() {
    let mut sink = Sink::new();
    let loc = output_location("./tmp", "avax", "0xabc/Token.sol");
    sink.write(loc.clone(), "contract T {}".to_string());
    sink.write(loc.clone(), "contract T {}".to_string());
    assert_eq!(sink.len(), 1);
    assert_eq!(sink.get(&loc).unwrap(), "contract T {}");
}

#[test]
fn writing_a_location_again_overwrites_it() {
    let mut sink = Sink::new();
    sink.write("a/b/c".to_string(), "one".to_string());
    sink.write("a/b/d".to_string(), "two".to_string());
    sink.write("a/b/c".to_string(), "three".to_string());
    assert_eq!(sink.len(), 2);
    assert_eq!(sink.get("a/b/c").unwrap(), "three");
    assert_eq!(sink.get("a/b/d").unwrap(), "two");
    assert!(sink.get("a/b/e").is_none());
}
