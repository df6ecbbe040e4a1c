//! The line-oriented parsers, exercised on in-memory file texts.

use malachite::cgtext::{parse_cgroup_file, parse_cgroup_nested_u64, parse_cgroup_numa_stat_file,
    parse_cgroup_reverse_nested_u64, parse_cgroup_value, parse_hundredths};
use malachite::net::parse_net_file;
use malachite::psi::{parse_cgroup_pressure, PressureStallInfo};
use malachite::text::{parse_i64_str, parse_u64_str, split_str, split_ws_str};

#[test]
fn test_parse_cgroup_numa_stat_file() {
    let file_content = "total=638459 N0=49505 N1=589301\nfile=315488 N0=24384 N1=291789\nanon=322971 N0=25121 N1=297512\nunevictable=0 N0=0 N1=0\nhierarchical_total=638459 N0=49505 N1=589301\n";
    let output = parse_cgroup_numa_stat_file(file_content);
    assert_eq!(output.get("N0").unwrap().get("total"), Some(&49505u64));
    assert_eq!(output.get("N0").unwrap().get("anon"), Some(&25121u64));
    assert_eq!(output.get("N1").unwrap().get("total"), Some(&589301u64));
    assert_eq!(output.get("N1").unwrap().get("anon"), Some(&297512u64));
    assert_eq!(output.get("N1").unwrap().get("file"), Some(&291789u64));
}

#[test]
fn test_parse_cgroup_file() {
    let file_content = "inactive_file 107535818752\nactive_file 60048904192\nunevictable 4096\nhierarchical_memory_limit 412316860416\nhierarchical_memsw_limit 9223372036854771712\ntotal_cache 167586779136\ntotal_rss 223102943232\n";
    let output = parse_cgroup_file(file_content);
    assert_eq!(output.get("inactive_file"), Some(&107535818752u64));
    assert_eq!(output.get("active_file"), Some(&60048904192u64));
    assert_eq!(output.get("unevictable"), Some(&4096u64));
    assert_eq!(output.get("hierarchical_memory_limit"), Some(&412316860416u64));
    assert_eq!(output.get("hierarchical_memsw_limit"), Some(&9223372036854771712u64));
    assert_eq!(output.get("total_cache"), Some(&167586779136u64));
    assert_eq!(output.get("total_rss"), Some(&223102943232u64));
    // the trailing blank line contributes the empty key with value zero
    assert_eq!(output.get(""), Some(&0u64));
    assert_eq!(output.len(), 8);
}

#[test]
fn test_parse_cgroup_nested_u64() {
    let file_content = "8:16 rbytes=1459200 wbytes=314773504 rios=192 wios=353 dbytes=0 dios=0\n8:0 rbytes=90430464 wbytes=299008000 rios=8950 wios=1252 dbytes=50331648 dios=3021\n";
    let output = parse_cgroup_nested_u64(file_content);
    let device1 = output.get("8:16").unwrap();
    assert_eq!(device1.get("rbytes"), Some(&1459200u64));
    assert_eq!(device1.get("wbytes"), Some(&314773504u64));
    assert_eq!(device1.get("rios"), Some(&192u64));
    assert_eq!(device1.get("wios"), Some(&353u64));
    assert_eq!(device1.get("dbytes"), Some(&0u64));
    assert_eq!(device1.get("dios"), Some(&0u64));
    assert_eq!(device1.len(), 6);
    let device2 = output.get("8:0").unwrap();
    assert_eq!(device2.get("rbytes"), Some(&90430464u64));
    assert_eq!(device2.get("wbytes"), Some(&299008000u64));
    assert_eq!(device2.get("rios"), Some(&8950u64));
    assert_eq!(device2.get("wios"), Some(&1252u64));
    assert_eq!(device2.get("dbytes"), Some(&50331648u64));
    assert_eq!(device2.get("dios"), Some(&3021u64));
    assert_eq!(device2.len(), 6);
    assert_eq!(output.len(), 2);
}

#[test]
fn test_parse_cgroup_reverse_nested_u64() {
    let file_content = "anon N0=5001216 N1=7028736\nfile N0=6082560 N1=5947392\n";
    let output = parse_cgroup_reverse_nested_u64(file_content);
    let numa0 = output.get("N0").unwrap();
    assert_eq!(numa0.get("anon"), Some(&5001216u64));
    assert_eq!(numa0.get("file"), Some(&6082560u64));
    assert_eq!(numa0.len(), 2);
    let numa1 = output.get("N1").unwrap();
    assert_eq!(numa1.get("anon"), Some(&7028736u64));
    assert_eq!(numa1.get("file"), Some(&5947392u64));
    assert_eq!(numa1.len(), 2);
    assert_eq!(output.len(), 2);
}

#[test]
fn test_parse_net_file() {
    let file_content = "field_a: k1 k2 k3\nfield_a: v1 v2 v3\nfield_b: k11 k22\nfield_b: v11 v22";
    let output = parse_net_file(file_content);
    let field_1 = output.get("field_a").unwrap();
    assert_eq!(field_1.get("k1").map(|s| s.as_str()), Some("v1"));
    assert_eq!(field_1.get("k2").map(|s| s.as_str()), Some("v2"));
    assert_eq!(field_1.get("k3").map(|s| s.as_str()), Some("v3"));
    assert_eq!(field_1.len(), 3);
    let field_2 = output.get("field_b").unwrap();
    assert_eq!(field_2.get("k11").map(|s| s.as_str()), Some("v11"));
    assert_eq!(field_2.get("k22").map(|s| s.as_str()), Some("v22"));
    assert_eq!(field_2.len(), 2);
    assert_eq!(output.len(), 2);
}

#[test]
fn test_parse_cgroup_pressure() {
    let file_content = "some avg10=1.23 avg60=4.56 avg300=7.89 total=12345\nfull avg10=9.87 avg60=6.54 avg300=3.21 total=54321\n";
    let output = parse_cgroup_pressure(file_content);
    let some = output.get("some").unwrap();
    assert_eq!(*some.get("avg10").unwrap() as f64 / 100.0, 1.23);
    assert_eq!(*some.get("avg60").unwrap() as f64 / 100.0, 4.56);
    assert_eq!(*some.get("avg300").unwrap() as f64 / 100.0, 7.89);
    assert_eq!(*some.get("total").unwrap() as f64 / 100.0, 12345.0);
    let full = output.get("full").unwrap();
    assert_eq!(*full.get("avg10").unwrap() as f64 / 100.0, 9.87);
    assert_eq!(*full.get("avg60").unwrap() as f64 / 100.0, 6.54);
    assert_eq!(*full.get("avg300").unwrap() as f64 / 100.0, 3.21);
    assert_eq!(*full.get("total").unwrap() as f64 / 100.0, 54321.0);
    assert_eq!(output.len(), 2);
}

#[test]
fn test_psi_item() {
    let file_content = "some avg10=1.23 avg60=4.56 avg300=7.89 total=12345\nfull avg10=9.87 avg60=6.54 avg300=3.21 total=54321\n";
    let psi_item = PressureStallInfo::from(file_content);
    assert_eq!(psi_item.some.unwrap().avg10 as f64 / 100.0, 1.23);
    assert_eq!(psi_item.some.unwrap().total as f64 / 100.0, 12345.0);
    assert_eq!(psi_item.full.unwrap().avg60 as f64 / 100.0, 6.54);
    assert_eq!(psi_item.full.unwrap().total as f64 / 100.0, 54321.0);
}

#[test]
fn test_parse_u64_rejects_junk() {
    assert_eq!(parse_u64_str("12345"), Some(12345));
    assert_eq!(parse_u64_str(""), None);
    assert_eq!(parse_u64_str("12a4"), None);
    assert_eq!(parse_u64_str("18446744073709551615"), Some(u64::MAX));
    assert_eq!(parse_u64_str("18446744073709551616"), None);
}

#[test]
fn test_parse_i64_signs() {
    assert_eq!(parse_i64_str("-1"), Some(-1));
    assert_eq!(parse_i64_str("2000000"), Some(2000000));
    assert_eq!(parse_i64_str("-9223372036854775808"), Some(i64::MIN));
    assert_eq!(parse_i64_str("-"), None);
}

#[test]
fn test_parse_cgroup_value_max_word() {
    assert_eq!(parse_cgroup_value("max"), Some(u64::MAX));
    assert_eq!(parse_cgroup_value("5368709120"), Some(5368709120));
    assert_eq!(parse_cgroup_value("nonsense"), None);
}

#[test]
fn test_parse_hundredths_forms() {
    assert_eq!(parse_hundredths("1.23"), Some(123));
    assert_eq!(parse_hundredths("1.2"), Some(120));
    assert_eq!(parse_hundredths("7"), Some(700));
    assert_eq!(parse_hundredths("1.234"), None);
    assert_eq!(parse_hundredths(""), None);
}

#[test]
fn test_split_keeps_empty_pieces() {
    let pieces = split_str("a,,b", ',');
    assert_eq!(pieces.len(), 3);
    assert_eq!(pieces[0], "a");
    assert_eq!(pieces[1], "");
    assert_eq!(pieces[2], "b");
    let toks = split_ws_str("  one\ttwo  ");
    assert_eq!(toks.len(), 2);
    assert_eq!(toks[0], "one");
    assert_eq!(toks[1], "two");
}
