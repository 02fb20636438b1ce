//! The chain registry: a fixed table from a chain's symbolic name to its
//! numeric chain identifier, consulted both to validate a requested chain and
//! to select the adapter responsible for it.

use vstd::prelude::*;
use crate::strutil::str_eq;

verus! {

/// The registry as a mathematical partial map from symbolic name to chain id.
pub open spec fn spec_chain_id(s: Seq<char>) -> Option<u32> {
    if s == "eth"@ {
        Some(1u32)
    } else if s == "bsc"@ {
        Some(56u32)
    } else if s == "ftm"@ {
        Some(250u32)
    } else if s == "pg"@ {
        Some(137u32)
    } else if s == "avax"@ {
        Some(43114u32)
    } else if s == "arb"@ {
        Some(42161u32)
    } else if s == "op"@ {
        Some(10u32)
    } else if s == "sepolia"@ {
        Some(11155111u32)
    } else if s == "base"@ {
        Some(8453u32)
    } else if s == "moonbeam"@ {
        Some(1284u32)
    } else if s == "moonriver"@ {
        Some(1285u32)
    } else if s == "cro"@ {
        Some(25u32)
    } else if s == "merlin"@ {
        Some(4200u32)
    } else if s == "bitlayer"@ {
        Some(200901u32)
    } else if s == "mode"@ {
        Some(34443u32)
    } else if s == "scroll"@ {
        Some(534352u32)
    } else if s == "core"@ {
        Some(1116u32)
    } else if s == "linea"@ {
        Some(59144u32)
    } else if s == "ailayer"@ {
        Some(2649u32)
    } else {
        None
    }
}

/// Resolve a symbolic chain name to its numeric chain identifier; `None` when
/// the name is not in the registry.
pub fn resolve_chain(symbol: &str) -> (r: Option<u32>)
    ensures
        r == spec_chain_id(symbol@),
{
    if str_eq(symbol, "eth") {
        Some(1)
    } else if str_eq(symbol, "bsc") {
        Some(56)
    } else if str_eq(symbol, "ftm") {
        Some(250)
    } else if str_eq(symbol, "pg") {
        Some(137)
    } else if str_eq(symbol, "avax") {
        Some(43114)
    } else if str_eq(symbol, "arb") {
        Some(42161)
    } else if str_eq(symbol, "op") {
        Some(10)
    } else if str_eq(symbol, "sepolia") {
        Some(11155111)
    } else if str_eq(symbol, "base") {
        Some(8453)
    } else if str_eq(symbol, "moonbeam") {
        Some(1284)
    } else if str_eq(symbol, "moonriver") {
        Some(1285)
    } else if str_eq(symbol, "cro") {
        Some(25)
    } else if str_eq(symbol, "merlin") {
        Some(4200)
    } else if str_eq(symbol, "bitlayer") {
        Some(200901)
    } else if str_eq(symbol, "mode") {
        Some(34443)
    } else if str_eq(symbol, "scroll") {
        Some(534352)
    } else if str_eq(symbol, "core") {
        Some(1116)
    } else if str_eq(symbol, "linea") {
        Some(59144)
    } else if str_eq(symbol, "ailayer") {
        Some(2649)
    } else {
        None
    }
}

/// The full registry as rows of (symbolic name, chain id).
pub open spec fn spec_chain_table() -> Seq<(Seq<char>, u32)> {
    seq![
        ("eth"@, 1u32),
        ("bsc"@, 56u32),
        ("ftm"@, 250u32),
        ("pg"@, 137u32),
        ("avax"@, 43114u32),
        ("arb"@, 42161u32),
        ("op"@, 10u32),
        ("sepolia"@, 11155111u32),
        ("base"@, 8453u32),
        ("moonbeam"@, 1284u32),
        ("moonriver"@, 1285u32),
        ("cro"@, 25u32),
        ("merlin"@, 4200u32),
        ("bitlayer"@, 200901u32),
        ("mode"@, 34443u32),
        ("scroll"@, 534352u32),
        ("core"@, 1116u32),
        ("linea"@, 59144u32),
        ("ailayer"@, 2649u32),
    ]
}

/// Every supported chain, as the listing mode prints them.
pub fn chain_table() -> (r: Vec<(String, u32)>)
    ensures
        r@.len() == spec_chain_table().len(),
        forall|i: int| 0 <= i < r@.len() ==> (r@[i].0@, r@[i].1) == spec_chain_table()[i],
{
    let mut t: Vec<(String, u32)> = Vec::new();
    t.push(("eth".to_owned(), 1));
    t.push(("bsc".to_owned(), 56));
    t.push(("ftm".to_owned(), 250));
    t.push(("pg".to_owned(), 137));
    t.push(("avax".to_owned(), 43114));
    t.push(("arb".to_owned(), 42161));
    t.push(("op".to_owned(), 10));
    t.push(("sepolia".to_owned(), 11155111));
    t.push(("base".to_owned(), 8453));
    t.push(("moonbeam".to_owned(), 1284));
    t.push(("moonriver".to_owned(), 1285));
    t.push(("cro".to_owned(), 25));
    t.push(("merlin".to_owned(), 4200));
    t.push(("bitlayer".to_owned(), 200901));
    t.push(("mode".to_owned(), 34443));
    t.push(("scroll".to_owned(), 534352));
    t.push(("core".to_owned(), 1116));
    t.push(("linea".to_owned(), 59144));
    t.push(("ailayer".to_owned(), 2649));
    t
}

/// Registry law: distinct symbolic names never resolve to the same chain id
/// — the numeric identifier is unique within the registry.
pub proof fn lemma_registry_ids_unique(s1: Seq<char>, s2: Seq<char>)
    requires
        spec_chain_id(s1) is Some,
        spec_chain_id(s1) == spec_chain_id(s2),
    ensures
        s1 == s2,
{
}

/// Registry law: the symbolic name of every table row resolves to exactly
/// that row's chain id — the names are unique keys of the registry.
pub proof fn lemma_registry_consistent(i: int)
    requires
        0 <= i < spec_chain_table().len(),
    ensures
        spec_chain_id(spec_chain_table()[i].0) == Some(spec_chain_table()[i].1),
{
    reveal_strlit("eth");
    reveal_strlit("bsc");
    reveal_strlit("ftm");
    reveal_strlit("pg");
    reveal_strlit("avax");
    reveal_strlit("arb");
    reveal_strlit("op");
    reveal_strlit("sepolia");
    reveal_strlit("base");
    reveal_strlit("moonbeam");
    reveal_strlit("moonriver");
    reveal_strlit("cro");
    reveal_strlit("merlin");
    reveal_strlit("bitlayer");
    reveal_strlit("mode");
    reveal_strlit("scroll");
    reveal_strlit("core");
    reveal_strlit("linea");
    reveal_strlit("ailayer");
    // names of distinct length are told apart by it, the rest by their first
    // character
    assert("eth"@.len() == 3);
    assert("bsc"@.len() == 3);
    assert("ftm"@.len() == 3);
    assert("pg"@.len() == 2);
    assert("avax"@.len() == 4);
    assert("arb"@.len() == 3);
    assert("op"@.len() == 2);
    assert("sepolia"@.len() == 7);
    assert("base"@.len() == 4);
    assert("moonbeam"@.len() == 8);
    assert("moonriver"@.len() == 9);
    assert("cro"@.len() == 3);
    assert("merlin"@.len() == 6);
    assert("bitlayer"@.len() == 8);
    assert("mode"@.len() == 4);
    assert("scroll"@.len() == 6);
    assert("core"@.len() == 4);
    assert("linea"@.len() == 5);
    assert("ailayer"@.len() == 7);
    assert("eth"@[0] == 'e');
    assert("bsc"@[0] == 'b');
    assert("ftm"@[0] == 'f');
    assert("pg"@[0] == 'p');
    assert("avax"@[0] == 'a');
    assert("arb"@[0] == 'a');
    assert("op"@[0] == 'o');
    assert("sepolia"@[0] == 's');
    assert("base"@[0] == 'b');
    assert("moonbeam"@[0] == 'm');
    assert("moonriver"@[0] == 'm');
    assert("cro"@[0] == 'c');
    assert("merlin"@[0] == 'm');
    assert("bitlayer"@[0] == 'b');
    assert("mode"@[0] == 'm');
    assert("scroll"@[0] == 's');
    assert("core"@[0] == 'c');
    assert("linea"@[0] == 'l');
    assert("ailayer"@[0] == 'a');
    if i == 0 {
        assert(spec_chain_id("eth"@) == Some(1u32));
    } else if i == 1 {
        assert(spec_chain_id("bsc"@) == Some(56u32));
    } else if i == 2 {
        assert(spec_chain_id("ftm"@) == Some(250u32));
    } else if i == 3 {
        assert(spec_chain_id("pg"@) == Some(137u32));
    } else if i == 4 {
        assert(spec_chain_id("avax"@) == Some(43114u32));
    } else if i == 5 {
        assert(spec_chain_id("arb"@) == Some(42161u32));
    } else if i == 6 {
        assert(spec_chain_id("op"@) == Some(10u32));
    } else if i == 7 {
        assert(spec_chain_id("sepolia"@) == Some(11155111u32));
    } else if i == 8 {
        assert(spec_chain_id("base"@) == Some(8453u32));
    } else if i == 9 {
        assert(spec_chain_id("moonbeam"@) == Some(1284u32));
    } else if i == 10 {
        assert(spec_chain_id("moonriver"@) == Some(1285u32));
    } else if i == 11 {
        assert(spec_chain_id("cro"@) == Some(25u32));
    } else if i == 12 {
        assert(spec_chain_id("merlin"@) == Some(4200u32));
    } else if i == 13 {
        assert(spec_chain_id("bitlayer"@) == Some(200901u32));
    } else if i == 14 {
        assert(spec_chain_id("mode"@) == Some(34443u32));
    } else if i == 15 {
        assert(spec_chain_id("scroll"@) == Some(534352u32));
    } else if i == 16 {
        assert(spec_chain_id("core"@) == Some(1116u32));
    } else if i == 17 {
        assert(spec_chain_id("linea"@) == Some(59144u32));
    } else {
        assert(spec_chain_id("ailayer"@) == Some(2649u32));
    }
}

} // verus!
