use dirac::checks::CheckSuite;
use dirac::table::Table;
use dirac::text::{i64_to_string, parse_u16, second_token_of};

fn check_suite_yaml() -> String {
    r##"
---
- inventory:
    all:
      - fritz.box
      - esel.fritz.box
    fritz_box:
      - fritz.box
    esel:
      - esel.fritz.box


- hosts: all
  properties:
    - name: Check SSH
      ssh: { port: 22, version: 2.0, software: "OpenSSH.*" }


- hosts: fritz_box
  properties:
    - name: DNS TCP
      connect_tcp:
        port: 53


- hosts: esel
  properties:
    - name: NetBios TCP Port
      connect_tcp:
        port: 139
"##
        .to_string()
}

fn parse_check_suite(check_suite_yaml: &str) -> CheckSuite {
    let check_suite_op = CheckSuite::read_from_string(check_suite_yaml);
    assert!(check_suite_op.is_some());
    check_suite_op.unwrap()
}

#[test]
pub fn check_suite_yml_read_in_test() {
    parse_check_suite(&check_suite_yaml());
}

#[test]
pub fn check_suite_yml_inventory_test() {
    let check_suite = parse_check_suite(&check_suite_yaml());
    let inventory = &check_suite.inventory;

    assert!(inventory.contains_key("all"));
    assert!(inventory.contains_key("fritz_box"));
    assert!(inventory.contains_key("esel"));
    assert_eq!(inventory.len(), 3);

    let all_group = inventory.get("all").unwrap();
    assert!(all_group.contains(&"fritz.box".to_string()));
    assert!(all_group.contains(&"esel.fritz.box".to_string()));
    assert_eq!(all_group.len(), 2);

    let fritz_box_group = inventory.get("fritz_box").unwrap();
    assert!(fritz_box_group.contains(&"fritz.box".to_string()));
    assert_eq!(fritz_box_group.len(), 1);

    let esel_group = inventory.get("esel").unwrap();
    assert!(esel_group.contains(&"esel.fritz.box".to_string()));
    assert_eq!(esel_group.len(), 1);
}

#[test]
pub fn check_suite_yml_checks_test() {
    let check_suite = parse_check_suite(&check_suite_yaml());
    let checks = &check_suite.checks;
    assert_eq!(checks.len(), 3);

    {
        let check = &checks[0];
        assert_eq!(check.inventory_name, "all".to_string());

        let properties = &check.properties;
        assert_eq!(properties.len(), 1);

        let property = &properties[0];
        assert_eq!(property.name, "Check SSH".to_string());
        assert_eq!(property.module, "ssh".to_string());

        let prop_params = &property.params;
        assert_eq!(prop_params.get("port").unwrap(), &"22".to_string());
        assert_eq!(prop_params.get("version").unwrap(), &"2.0".to_string());
        assert_eq!(prop_params.get("software").unwrap(), &"OpenSSH.*".to_string());
        assert_eq!(prop_params.len(), 3);
    }

    {
        let check = &checks[1];
        assert_eq!(check.inventory_name, "fritz_box".to_string());
        let properties = &check.properties;
        assert_eq!(properties.len(), 1);

        let property = &properties[0];
        assert_eq!(property.name, "DNS TCP".to_string());
        assert_eq!(property.module, "connect_tcp".to_string());

        let prop_params = &property.params;
        assert_eq!(prop_params.get("port").unwrap(), &"53".to_string());
        assert_eq!(prop_params.len(), 1);
    }

    {
        let check = &checks[2];
        assert_eq!(check.inventory_name, "esel".to_string());
        let properties = &check.properties;
        assert_eq!(properties.len(), 1);

        let property = &properties[0];
        assert_eq!(property.name, "NetBios TCP Port".to_string());
        assert_eq!(property.module, "connect_tcp".to_string());

        let prop_params = &property.params;
        assert_eq!(prop_params.get("port").unwrap(), &"139".to_string());
        assert_eq!(prop_params.len(), 1);
    }
}

#[test]
fn read_rejects_empty_and_malformed_text() {
    assert!(CheckSuite::read_from_string("").is_none());
    assert!(CheckSuite::read_from_string("- inventory: {").is_none());
    // The first document must be a list.
    assert!(CheckSuite::read_from_string("just a scalar").is_none());
}

#[test]
fn read_passes_over_unrelated_mappings() {
    let yaml = r##"
- inventory:
    g:
      - one.example
- note: nothing to see
- hosts: g
  properties:
    - name: P
      m:
        port: 1
"##;
    let suite = parse_check_suite(yaml);
    assert_eq!(suite.checks.len(), 1);
    assert_eq!(suite.inventory.len(), 1);
}

#[test]
fn read_rejects_missing_name_or_module() {
    // A property with a module but no name cannot be read.
    let no_name = r##"
- inventory:
    g:
      - one.example
- hosts: g
  properties:
    - m:
        port: 1
"##;
    assert!(CheckSuite::read_from_string(no_name).is_none());
    // A property with a name but no module cannot be read either.
    let no_module = r##"
- inventory:
    g:
      - one.example
- hosts: g
  properties:
    - name: P
"##;
    assert!(CheckSuite::read_from_string(no_module).is_none());
}

#[test]
fn later_inventory_block_replaces_a_group() {
    let yaml = r##"
- inventory:
    g:
      - first.example
- inventory:
    g:
      - second.example
- hosts: g
  properties:
    - name: P
      m:
        port: 1
"##;
    let suite = parse_check_suite(yaml);
    assert_eq!(suite.inventory.len(), 1);
    let group = suite.inventory.get("g").unwrap();
    assert_eq!(group, &vec!["second.example".to_string()]);
}

#[test]
fn negative_integer_parameter_is_rendered_in_decimal() {
    let yaml = r##"
- inventory:
    g:
      - one.example
- hosts: g
  properties:
    - name: P
      m: { port: 5, offset: -17 }
"##;
    let suite = parse_check_suite(yaml);
    let property = &suite.checks[0].properties[0];
    assert_eq!(property.params.get("offset").unwrap(), &"-17".to_string());
}

#[test]
fn well_formedness_requires_ports_and_known_groups() {
    let good = parse_check_suite(&check_suite_yaml());
    assert!(good.is_well_formed());

    let unknown_group = r##"
- inventory:
    g:
      - one.example
- hosts: nosuch
  properties:
    - name: P
      m:
        port: 1
"##;
    let suite = parse_check_suite(unknown_group);
    assert!(!suite.is_well_formed());

    let missing_port = r##"
- inventory:
    g:
      - one.example
- hosts: g
  properties:
    - name: P
      m:
        color: red
"##;
    let suite = parse_check_suite(missing_port);
    assert!(!suite.is_well_formed());

    let huge_port = r##"
- inventory:
    g:
      - one.example
- hosts: g
  properties:
    - name: P
      m:
        port: 65536
"##;
    let suite = parse_check_suite(huge_port);
    assert!(!suite.is_well_formed());
}

#[test]
fn property_port_parses_the_port_parameter() {
    let suite = parse_check_suite(&check_suite_yaml());
    assert_eq!(suite.checks[0].properties[0].port(), Some(22));
    assert_eq!(suite.checks[2].properties[0].port(), Some(139));
}

#[test]
fn parse_u16_accepts_digits_and_rejects_the_rest() {
    assert_eq!(parse_u16("22"), Some(22));
    assert_eq!(parse_u16("+22"), Some(22));
    assert_eq!(parse_u16("0"), Some(0));
    assert_eq!(parse_u16("070"), Some(70));
    assert_eq!(parse_u16("65535"), Some(65535));
    assert_eq!(parse_u16("65536"), None);
    assert_eq!(parse_u16("999999999999999999"), None);
    assert_eq!(parse_u16(""), None);
    assert_eq!(parse_u16("+"), None);
    assert_eq!(parse_u16("1e3"), None);
    assert_eq!(parse_u16("-1"), None);
    assert_eq!(parse_u16(" 22"), None);
}

#[test]
fn i64_to_string_renders_decimals() {
    assert_eq!(i64_to_string(0), "0".to_string());
    assert_eq!(i64_to_string(22), "22".to_string());
    assert_eq!(i64_to_string(-17), "-17".to_string());
    assert_eq!(i64_to_string(9223372036854775807), "9223372036854775807".to_string());
    assert_eq!(i64_to_string(-9223372036854775808), "-9223372036854775808".to_string());
}

#[test]
fn second_token_extracts_the_path() {
    assert_eq!(second_token_of("GET /health"), Some("/health".to_string()));
    assert_eq!(second_token_of("  POST   /a/b  trailing"), Some("/a/b".to_string()));
    assert_eq!(second_token_of("GET"), None);
    assert_eq!(second_token_of("GET   "), None);
    assert_eq!(second_token_of(""), None);
}

#[test]
fn table_keeps_insertion_order_and_replaces_in_place() {
    let mut t: Table<String> = Table::new();
    t.insert("b".to_string(), "1".to_string());
    t.insert("a".to_string(), "2".to_string());
    t.insert("b".to_string(), "3".to_string());
    assert_eq!(t.len(), 2);
    assert_eq!(t.get("b").unwrap(), &"3".to_string());
    assert_eq!(t.get("a").unwrap(), &"2".to_string());
    assert!(t.get("c").is_none());
    // `b` keeps its first position.
    assert_eq!(t.entry_at(0).0, "b".to_string());
    assert_eq!(t.entry_at(1).0, "a".to_string());
}

#[test]
fn duplicate_copies_the_whole_suite() {
    let suite = parse_check_suite(&check_suite_yaml());
    let copy = suite.duplicate();
    assert_eq!(copy.checks.len(), suite.checks.len());
    assert_eq!(copy.inventory.len(), suite.inventory.len());
    assert_eq!(copy.checks[0].properties[0].name, suite.checks[0].properties[0].name);
    assert_eq!(copy.inventory.get("all").unwrap(), suite.inventory.get("all").unwrap());
}
