//! The check-suite data model and its extraction from a YAML document tree.
//!
//! A suite holds an inventory (named groups of hosts) and checks (a group
//! name with the properties to probe on that group).  The extraction walks
//! the parsed documents exactly as the model below states: the first
//! document must be a list of mappings; mappings with an `inventory` key
//! contribute host groups; mappings with `hosts` and `properties` keys
//! contribute checks; any shape the walk cannot read yields nothing.

use vstd::prelude::*;

use crate::table::{key_index_from, lookup_from, spec_insert, spec_lookup, Table};
use crate::text::{dec_int, parse_u16_spec};
use crate::yaml::YamlNode;

verus! {

/// String-to-string parameters of one property.
pub type Kwargs = Table<String>;

/// Named groups of hosts, in insertion order.
pub type Inventory = Table<Vec<String>>;

pub struct Property {
    pub name: String,
    pub module: String,
    pub params: Kwargs,
}

pub struct Check {
    pub inventory_name: String,
    pub properties: Vec<Property>,
}

pub struct CheckSuite {
    pub inventory: Inventory,
    pub checks: Vec<Check>,
}

pub ghost struct PropertyModel {
    pub name: Seq<char>,
    pub module: Seq<char>,
    pub params: Seq<(Seq<char>, Seq<char>)>,
}

pub ghost struct CheckModel {
    pub inventory_name: Seq<char>,
    pub properties: Seq<PropertyModel>,
}

pub ghost struct SuiteModel {
    pub inventory: Seq<(Seq<char>, Seq<Seq<char>>)>,
    pub checks: Seq<CheckModel>,
}

/// Entry sequences with their values mapped, keys kept.
pub open spec fn entries_map<V, W>(s: Seq<(Seq<char>, V)>, f: spec_fn(V) -> W) -> Seq<
    (Seq<char>, W),
> {
    s.map_values(|e: (Seq<char>, V)| (e.0, f(e.1)))
}

/// The mathematical content of string-valued parameters.
pub open spec fn kwargs_model(s: Seq<(Seq<char>, String)>) -> Seq<(Seq<char>, Seq<char>)> {
    entries_map(s, |v: String| v@)
}

/// The mathematical content of an inventory table.
pub open spec fn inventory_model(s: Seq<(Seq<char>, Vec<String>)>) -> Seq<
    (Seq<char>, Seq<Seq<char>>),
> {
    entries_map(s, |v: Vec<String>| v.deep_view())
}

impl View for Property {
    type V = PropertyModel;

    open spec fn view(&self) -> PropertyModel {
        PropertyModel { name: self.name@, module: self.module@, params: kwargs_model(self.params@) }
    }
}

impl DeepView for Property {
    type V = PropertyModel;

    open spec fn deep_view(&self) -> PropertyModel {
        self.view()
    }
}

impl View for Check {
    type V = CheckModel;

    open spec fn view(&self) -> CheckModel {
        CheckModel {
            inventory_name: self.inventory_name@,
            properties: self.properties.deep_view(),
        }
    }
}

impl DeepView for Check {
    type V = CheckModel;

    open spec fn deep_view(&self) -> CheckModel {
        self.view()
    }
}

impl View for CheckSuite {
    type V = SuiteModel;

    open spec fn view(&self) -> SuiteModel {
        SuiteModel { inventory: inventory_model(self.inventory@), checks: self.checks.deep_view() }
    }
}

impl DeepView for CheckSuite {
    type V = SuiteModel;

    open spec fn deep_view(&self) -> SuiteModel {
        self.view()
    }
}

pub proof fn lemma_kwargs_key_index(s: Seq<(Seq<char>, String)>, key: Seq<char>, i: int)
    requires
        0 <= i <= s.len(),
    ensures
        key_index_from(kwargs_model(s), key, i) == key_index_from(s, key, i),
        i <= key_index_from(s, key, i) <= s.len(),
    decreases s.len() - i,
{
    if i < s.len() {
        lemma_kwargs_key_index(s, key, i + 1);
    }
}

/// Taking the model of parameters commutes with insertion.
pub proof fn lemma_kwargs_insert(s: Seq<(Seq<char>, String)>, key: Seq<char>, value: String)
    ensures
        kwargs_model(spec_insert(s, key, value)) =~= spec_insert(kwargs_model(s), key, value@),
{
    lemma_kwargs_key_index(s, key, 0);
    let i = key_index_from(s, key, 0);
    if i == s.len() {
        assert(kwargs_model(s.push((key, value))) =~= kwargs_model(s).push((key, value@)));
    } else {
        assert(kwargs_model(s.update(i, (key, value))) =~= kwargs_model(s).update(
            i,
            (key, value@),
        ));
    }
}

/// Taking the model of parameters commutes with lookup.
pub proof fn lemma_kwargs_lookup(s: Seq<(Seq<char>, String)>, key: Seq<char>, i: int)
    requires
        0 <= i <= s.len(),
    ensures
        lookup_from(s, key, i) matches Some(v) ==> lookup_from(kwargs_model(s), key, i) == Some(
            v@,
        ),
        lookup_from(s, key, i) is None ==> lookup_from(kwargs_model(s), key, i) is None,
    decreases s.len() - i,
{
    if i < s.len() {
        lemma_kwargs_lookup(s, key, i + 1);
    }
}

pub proof fn lemma_inventory_key_index(s: Seq<(Seq<char>, Vec<String>)>, key: Seq<char>, i: int)
    requires
        0 <= i <= s.len(),
    ensures
        key_index_from(inventory_model(s), key, i) == key_index_from(s, key, i),
        i <= key_index_from(s, key, i) <= s.len(),
    decreases s.len() - i,
{
    if i < s.len() {
        lemma_inventory_key_index(s, key, i + 1);
    }
}

/// Taking the model of an inventory commutes with insertion.
pub proof fn lemma_inventory_insert(
    s: Seq<(Seq<char>, Vec<String>)>,
    key: Seq<char>,
    value: Vec<String>,
)
    ensures
        inventory_model(spec_insert(s, key, value)) =~= spec_insert(
            inventory_model(s),
            key,
            value.deep_view(),
        ),
{
    lemma_inventory_key_index(s, key, 0);
    let i = key_index_from(s, key, 0);
    if i == s.len() {
        assert(inventory_model(s.push((key, value))) =~= inventory_model(s).push(
            (key, value.deep_view()),
        ));
    } else {
        assert(inventory_model(s.update(i, (key, value))) =~= inventory_model(s).update(
            i,
            (key, value.deep_view()),
        ));
    }
}

/// Taking the model of an inventory commutes with lookup.
pub proof fn lemma_inventory_lookup(s: Seq<(Seq<char>, Vec<String>)>, key: Seq<char>, i: int)
    requires
        0 <= i <= s.len(),
    ensures
        lookup_from(s, key, i) matches Some(v) ==> lookup_from(inventory_model(s), key, i) == Some(
            v.deep_view(),
        ),
        lookup_from(s, key, i) is None ==> lookup_from(inventory_model(s), key, i) is None,
    decreases s.len() - i,
{
    if i < s.len() {
        lemma_inventory_lookup(s, key, i + 1);
    }
}

/// Lookup in a YAML mapping under a text key, first match wins; mirrors
/// lookup by an exact string-valued key.
pub open spec fn yaml_lookup_from(
    entries: Seq<(YamlNode, YamlNode)>,
    key: Seq<char>,
    i: int,
) -> Option<YamlNode>
    decreases entries.len() - i,
{
    if i < 0 || i >= entries.len() {
        None
    } else if entries[i].0 matches YamlNode::Text(t) && t@ == key {
        Some(entries[i].1)
    } else {
        yaml_lookup_from(entries, key, i + 1)
    }
}

pub open spec fn yaml_lookup(entries: Seq<(YamlNode, YamlNode)>, key: Seq<char>) -> Option<
    YamlNode,
> {
    yaml_lookup_from(entries, key, 0)
}

/// The hosts named by the first `i` nodes of a group's host list; every
/// node must be text.
pub open spec fn hosts_prefix(nodes: Seq<YamlNode>, i: int) -> Option<Seq<Seq<char>>>
    decreases i,
{
    if i <= 0 {
        Some(Seq::empty())
    } else {
        match hosts_prefix(nodes, i - 1) {
            None => None,
            Some(acc) => match nodes[i - 1] {
                YamlNode::Text(t) => Some(acc.push(t@)),
                _ => None,
            },
        }
    }
}

/// The inventory after folding in the first `i` groups of one `inventory`
/// mapping: group keys must be text, group values lists of text.
pub open spec fn groups_prefix(
    entries: Seq<(YamlNode, YamlNode)>,
    i: int,
    inv0: Seq<(Seq<char>, Seq<Seq<char>>)>,
) -> Option<Seq<(Seq<char>, Seq<Seq<char>>)>>
    decreases i,
{
    if i <= 0 {
        Some(inv0)
    } else {
        match groups_prefix(entries, i - 1, inv0) {
            None => None,
            Some(inv) => match entries[i - 1].0 {
                YamlNode::Text(name) => match entries[i - 1].1 {
                    YamlNode::Array(hosts) => match hosts_prefix(hosts@, hosts@.len() as int) {
                        Some(hs) => Some(spec_insert(inv, name@, hs)),
                        None => None,
                    },
                    _ => None,
                },
                _ => None,
            },
        }
    }
}

/// The inventory collected from the first `i` items of the first document:
/// every item must be a mapping; those with an `inventory` key contribute
/// their groups.
pub open spec fn inventory_prefix(items: Seq<YamlNode>, i: int) -> Option<
    Seq<(Seq<char>, Seq<Seq<char>>)>,
>
    decreases i,
{
    if i <= 0 {
        Some(Seq::empty())
    } else {
        match inventory_prefix(items, i - 1) {
            None => None,
            Some(inv) => match items[i - 1] {
                YamlNode::Mapping(entries) => match yaml_lookup(entries@, "inventory"@) {
                    Some(v) => match v {
                        YamlNode::Mapping(groups) => groups_prefix(
                            groups@,
                            groups@.len() as int,
                            inv,
                        ),
                        _ => None,
                    },
                    None => Some(inv),
                },
                _ => None,
            },
        }
    }
}

/// The text that one parameter scalar contributes: integers in decimal,
/// reals and text verbatim, anything else a fixed marker.
pub open spec fn param_value_model(v: YamlNode) -> Seq<char> {
    match v {
        YamlNode::Integer(i) => dec_int(i as int),
        YamlNode::Real(s) => s@,
        YamlNode::Text(s) => s@,
        _ => "<could not translate YAML value>"@,
    }
}

/// The parameter table from the first `i` entries of a module's mapping:
/// keys must be text, values are normalized to text.
pub open spec fn params_prefix(entries: Seq<(YamlNode, YamlNode)>, i: int) -> Option<
    Seq<(Seq<char>, Seq<char>)>,
>
    decreases i,
{
    if i <= 0 {
        Some(Seq::empty())
    } else {
        match params_prefix(entries, i - 1) {
            None => None,
            Some(ps) => match entries[i - 1].0 {
                YamlNode::Text(k) => Some(spec_insert(ps, k@, param_value_model(entries[i - 1].1))),
                _ => None,
            },
        }
    }
}

/// The name and module named by the first `i` entries of a property
/// mapping: a text value under the `name` key names the property; any
/// other key must be text and names the module, last one wins.
pub open spec fn name_module_prefix(entries: Seq<(YamlNode, YamlNode)>, i: int) -> Option<
    (Option<Seq<char>>, Option<Seq<char>>),
>
    decreases i,
{
    if i <= 0 {
        Some((None, None))
    } else {
        match name_module_prefix(entries, i - 1) {
            None => None,
            Some((nm, md)) => match entries[i - 1].0 {
                YamlNode::Text(k) => if k@ == "name"@ {
                    match entries[i - 1].1 {
                        YamlNode::Text(v) => Some((Some(v@), md)),
                        _ => None,
                    }
                } else {
                    Some((nm, Some(k@)))
                },
                _ => None,
            },
        }
    }
}

/// The property one mapping node describes: a name, a module, and the
/// parameters found under the module's own key.
pub open spec fn property_model_of(node: YamlNode) -> Option<PropertyModel> {
    match node {
        YamlNode::Mapping(entries) => match name_module_prefix(entries@, entries@.len() as int) {
            Some((Some(nm), Some(md))) => match yaml_lookup(entries@, md) {
                Some(pv) => match pv {
                    YamlNode::Mapping(pentries) => match params_prefix(
                        pentries@,
                        pentries@.len() as int,
                    ) {
                        Some(ps) => Some(PropertyModel { name: nm, module: md, params: ps }),
                        None => None,
                    },
                    _ => None,
                },
                None => None,
            },
            Some(_) => None,
            None => None,
        },
        _ => None,
    }
}

/// The properties of the first `i` nodes of a check's property list.
pub open spec fn properties_prefix(nodes: Seq<YamlNode>, i: int) -> Option<Seq<PropertyModel>>
    decreases i,
{
    if i <= 0 {
        Some(Seq::empty())
    } else {
        match properties_prefix(nodes, i - 1) {
            None => None,
            Some(ps) => match property_model_of(nodes[i - 1]) {
                Some(p) => Some(ps.push(p)),
                None => None,
            },
        }
    }
}

/// The checks collected from the first `i` items of the first document:
/// mappings with an `inventory` key are the inventory's, mappings with
/// `hosts` and `properties` keys contribute a check, other mappings are
/// passed over.
pub open spec fn checks_prefix(items: Seq<YamlNode>, i: int) -> Option<Seq<CheckModel>>
    decreases i,
{
    if i <= 0 {
        Some(Seq::empty())
    } else {
        match checks_prefix(items, i - 1) {
            None => None,
            Some(cs) => match items[i - 1] {
                YamlNode::Mapping(entries) => if yaml_lookup(entries@, "inventory"@) is Some {
                    Some(cs)
                } else if yaml_lookup(entries@, "hosts"@) is Some && yaml_lookup(
                    entries@,
                    "properties"@,
                ) is Some {
                    match yaml_lookup(entries@, "hosts"@) {
                        Some(YamlNode::Text(inv_name)) => match yaml_lookup(
                            entries@,
                            "properties"@,
                        ) {
                            Some(YamlNode::Array(props)) => match properties_prefix(
                                props@,
                                props@.len() as int,
                            ) {
                                Some(pms) => Some(
                                    cs.push(
                                        CheckModel { inventory_name: inv_name@, properties: pms },
                                    ),
                                ),
                                None => None,
                            },
                            _ => None,
                        },
                        _ => None,
                    }
                } else {
                    Some(cs)
                },
                _ => None,
            },
        }
    }
}

proof fn lemma_hosts_prefix_none(nodes: Seq<YamlNode>, i: int, j: int)
    requires
        0 <= i <= j,
        hosts_prefix(nodes, i) is None,
    ensures
        hosts_prefix(nodes, j) is None,
    decreases j - i,
{
    if j > i {
        lemma_hosts_prefix_none(nodes, i, j - 1);
    }
}

proof fn lemma_groups_prefix_none(
    entries: Seq<(YamlNode, YamlNode)>,
    i: int,
    j: int,
    inv0: Seq<(Seq<char>, Seq<Seq<char>>)>,
)
    requires
        0 <= i <= j,
        groups_prefix(entries, i, inv0) is None,
    ensures
        groups_prefix(entries, j, inv0) is None,
    decreases j - i,
{
    if j > i {
        lemma_groups_prefix_none(entries, i, j - 1, inv0);
    }
}

proof fn lemma_inventory_prefix_none(items: Seq<YamlNode>, i: int, j: int)
    requires
        0 <= i <= j,
        inventory_prefix(items, i) is None,
    ensures
        inventory_prefix(items, j) is None,
    decreases j - i,
{
    if j > i {
        lemma_inventory_prefix_none(items, i, j - 1);
    }
}

proof fn lemma_params_prefix_none(entries: Seq<(YamlNode, YamlNode)>, i: int, j: int)
    requires
        0 <= i <= j,
        params_prefix(entries, i) is None,
    ensures
        params_prefix(entries, j) is None,
    decreases j - i,
{
    if j > i {
        lemma_params_prefix_none(entries, i, j - 1);
    }
}

proof fn lemma_name_module_prefix_none(entries: Seq<(YamlNode, YamlNode)>, i: int, j: int)
    requires
        0 <= i <= j,
        name_module_prefix(entries, i) is None,
    ensures
        name_module_prefix(entries, j) is None,
    decreases j - i,
{
    if j > i {
        lemma_name_module_prefix_none(entries, i, j - 1);
    }
}

proof fn lemma_properties_prefix_none(nodes: Seq<YamlNode>, i: int, j: int)
    requires
        0 <= i <= j,
        properties_prefix(nodes, i) is None,
    ensures
        properties_prefix(nodes, j) is None,
    decreases j - i,
{
    if j > i {
        lemma_properties_prefix_none(nodes, i, j - 1);
    }
}

proof fn lemma_checks_prefix_none(items: Seq<YamlNode>, i: int, j: int)
    requires
        0 <= i <= j,
        checks_prefix(items, i) is None,
    ensures
        checks_prefix(items, j) is None,
    decreases j - i,
{
    if j > i {
        lemma_checks_prefix_none(items, i, j - 1);
    }
}

/// Lookup in a YAML mapping under a text key: `yaml_lookup` made
/// executable.
fn yaml_get<'a>(entries: &'a Vec<(YamlNode, YamlNode)>, key: &str) -> (r: Option<&'a YamlNode>)
    ensures
        r matches Some(v) ==> yaml_lookup(entries@, key@) == Some(*v),
        r is None ==> yaml_lookup(entries@, key@) is None,
{
    let n = entries.len();
    let mut i: usize = 0;
    while i < n
        invariant
            0 <= i <= n,
            n == entries@.len(),
            yaml_lookup(entries@, key@) == yaml_lookup_from(entries@, key@, i as int),
        decreases n - i,
    {
        match &entries[i].0 {
            YamlNode::Text(t) => {
                if crate::text::str_eq(t.as_str(), key) {
                    return Some(&entries[i].1);
                }
            },
            _ => {},
        }
        i += 1;
    }
    None
}

fn build_hosts(nodes: &Vec<YamlNode>) -> (r: Option<Vec<String>>)
    ensures
        r matches Some(hs) ==> hosts_prefix(nodes@, nodes@.len() as int) == Some(hs.deep_view()),
        r is None ==> hosts_prefix(nodes@, nodes@.len() as int) is None,
{
    let n = nodes.len();
    let mut hs: Vec<String> = Vec::new();
    let mut i: usize = 0;
    while i < n
        invariant
            0 <= i <= n,
            n == nodes@.len(),
            hosts_prefix(nodes@, i as int) == Some(hs.deep_view()),
        decreases n - i,
    {
        match &nodes[i] {
            YamlNode::Text(t) => {
                hs.push(t.clone());
                proof {
                    assert(hs.deep_view() =~= hosts_prefix(nodes@, i + 1 as int).unwrap());
                }
            },
            _ => {
                proof {
                    lemma_hosts_prefix_none(nodes@, i + 1 as int, n as int);
                }
                return None;
            },
        }
        i += 1;
    }
    Some(hs)
}

fn add_groups(inv: &mut Inventory, groups: &Vec<(YamlNode, YamlNode)>) -> (ok: bool)
    ensures
        ok ==> groups_prefix(groups@, groups@.len() as int, inventory_model(old(inv)@)) == Some(
            inventory_model(final(inv)@),
        ),
        !ok ==> groups_prefix(groups@, groups@.len() as int, inventory_model(old(inv)@)) is None,
{
    let n = groups.len();
    let mut i: usize = 0;
    while i < n
        invariant
            0 <= i <= n,
            n == groups@.len(),
            groups_prefix(groups@, i as int, inventory_model(old(inv)@)) == Some(
                inventory_model(inv@),
            ),
        decreases n - i,
    {
        let ok: bool = match &groups[i].0 {
            YamlNode::Text(name) => match &groups[i].1 {
                YamlNode::Array(hosts_nodes) => match build_hosts(hosts_nodes) {
                    Some(hs) => {
                        let ghost pre = inv@;
                        let ghost hs_snapshot = hs;
                        inv.insert(name.clone(), hs);
                        proof {
                            lemma_inventory_insert(pre, name@, hs_snapshot);
                        }
                        true
                    },
                    None => false,
                },
                _ => false,
            },
            _ => false,
        };
        if !ok {
            proof {
                lemma_groups_prefix_none(
                    groups@,
                    i + 1 as int,
                    n as int,
                    inventory_model(old(inv)@),
                );
            }
            return false;
        }
        i += 1;
    }
    true
}

fn build_inventory(items: &Vec<YamlNode>) -> (r: Option<Inventory>)
    ensures
        r matches Some(inv) ==> inventory_prefix(items@, items@.len() as int) == Some(
            inventory_model(inv@),
        ),
        r is None ==> inventory_prefix(items@, items@.len() as int) is None,
{
    let n = items.len();
    let mut inv: Inventory = Table::new();
    let mut i: usize = 0;
    while i < n
        invariant
            0 <= i <= n,
            n == items@.len(),
            inventory_prefix(items@, i as int) == Some(inventory_model(inv@)),
        decreases n - i,
    {
        let ok: bool = match &items[i] {
            YamlNode::Mapping(entries) => match yaml_get(entries, "inventory") {
                Some(v) => match v {
                    YamlNode::Mapping(groups) => add_groups(&mut inv, groups),
                    _ => false,
                },
                None => true,
            },
            _ => false,
        };
        if !ok {
            proof {
                lemma_inventory_prefix_none(items@, i + 1 as int, n as int);
            }
            return None;
        }
        i += 1;
    }
    Some(inv)
}

fn build_params(entries: &Vec<(YamlNode, YamlNode)>) -> (r: Option<Kwargs>)
    ensures
        r matches Some(t) ==> params_prefix(entries@, entries@.len() as int) == Some(
            kwargs_model(t@),
        ),
        r is None ==> params_prefix(entries@, entries@.len() as int) is None,
{
    let n = entries.len();
    let mut t: Kwargs = Table::new();
    let mut i: usize = 0;
    while i < n
        invariant
            0 <= i <= n,
            n == entries@.len(),
            params_prefix(entries@, i as int) == Some(kwargs_model(t@)),
        decreases n - i,
    {
        match &entries[i].0 {
            YamlNode::Text(k) => {
                let value: String = match &entries[i].1 {
                    YamlNode::Integer(x) => crate::text::i64_to_string(*x),
                    YamlNode::Real(s) => s.clone(),
                    YamlNode::Text(s) => s.clone(),
                    _ => "<could not translate YAML value>".to_owned(),
                };
                proof {
                    assert(value@ == param_value_model(entries@[i as int].1));
                }
                let ghost pre = t@;
                let ghost value_snapshot = value;
                t.insert(k.clone(), value);
                proof {
                    lemma_kwargs_insert(pre, k@, value_snapshot);
                }
            },
            _ => {
                proof {
                    lemma_params_prefix_none(entries@, i + 1 as int, n as int);
                }
                return None;
            },
        }
        i += 1;
    }
    Some(t)
}

fn build_property(node: &YamlNode) -> (r: Option<Property>)
    ensures
        r matches Some(p) ==> property_model_of(*node) == Some(p@),
        r is None ==> property_model_of(*node) is None,
{
    let entries = match node {
        YamlNode::Mapping(e) => e,
        _ => {
            return None;
        },
    };
    let mut name: Option<String> = None;
    let mut module: Option<String> = None;
    let n = entries.len();
    let mut i: usize = 0;
    while i < n
        invariant
            0 <= i <= n,
            n == entries@.len(),
            *node == YamlNode::Mapping(*entries),
            name_module_prefix(entries@, i as int) == Some((name.deep_view(), module.deep_view())),
        decreases n - i,
    {
        let ok: bool = match &entries[i].0 {
            YamlNode::Text(k) => {
                if crate::text::str_eq(k.as_str(), "name") {
                    match &entries[i].1 {
                        YamlNode::Text(v) => {
                            name = Some(v.clone());
                            true
                        },
                        _ => false,
                    }
                } else {
                    module = Some(k.clone());
                    true
                }
            },
            _ => false,
        };
        if !ok {
            proof {
                lemma_name_module_prefix_none(entries@, i + 1 as int, n as int);
            }
            return None;
        }
        i += 1;
    }
    let nm: String = match name {
        Some(s) => s,
        None => {
            return None;
        },
    };
    let md: String = match module {
        Some(s) => s,
        None => {
            return None;
        },
    };
    let pnode = match yaml_get(entries, md.as_str()) {
        Some(v) => v,
        None => {
            return None;
        },
    };
    let pentries = match pnode {
        YamlNode::Mapping(pe) => pe,
        _ => {
            return None;
        },
    };
    let params = match build_params(pentries) {
        Some(t) => t,
        None => {
            return None;
        },
    };
    Some(Property { name: nm, module: md, params })
}

fn build_properties(nodes: &Vec<YamlNode>) -> (r: Option<Vec<Property>>)
    ensures
        r matches Some(ps) ==> properties_prefix(nodes@, nodes@.len() as int) == Some(
            ps.deep_view(),
        ),
        r is None ==> properties_prefix(nodes@, nodes@.len() as int) is None,
{
    let n = nodes.len();
    let mut ps: Vec<Property> = Vec::new();
    let mut i: usize = 0;
    while i < n
        invariant
            0 <= i <= n,
            n == nodes@.len(),
            properties_prefix(nodes@, i as int) == Some(ps.deep_view()),
        decreases n - i,
    {
        match build_property(&nodes[i]) {
            Some(p) => {
                ps.push(p);
                proof {
                    assert(ps.deep_view() =~= properties_prefix(nodes@, i + 1 as int).unwrap());
                }
            },
            None => {
                proof {
                    lemma_properties_prefix_none(nodes@, i + 1 as int, n as int);
                }
                return None;
            },
        }
        i += 1;
    }
    Some(ps)
}

fn build_checks(items: &Vec<YamlNode>) -> (r: Option<Vec<Check>>)
    ensures
        r matches Some(cs) ==> checks_prefix(items@, items@.len() as int) == Some(cs.deep_view()),
        r is None ==> checks_prefix(items@, items@.len() as int) is None,
{
    let n = items.len();
    let mut cs: Vec<Check> = Vec::new();
    let mut i: usize = 0;
    while i < n
        invariant
            0 <= i <= n,
            n == items@.len(),
            checks_prefix(items@, i as int) == Some(cs.deep_view()),
        decreases n - i,
    {
        let ok: bool = match &items[i] {
            YamlNode::Mapping(entries) => match yaml_get(entries, "inventory") {
                Some(_) => true,
                None => {
                    let hosts_opt = yaml_get(entries, "hosts");
                    let props_opt = yaml_get(entries, "properties");
                    match (hosts_opt, props_opt) {
                        (Some(hn), Some(pn)) => {
                            let inv_name = match hn {
                                YamlNode::Text(t) => t,
                                _ => {
                                    proof {
                                        lemma_checks_prefix_none(items@, i + 1 as int, n as int);
                                    }
                                    return None;
                                },
                            };
                            let pnodes = match pn {
                                YamlNode::Array(v) => v,
                                _ => {
                                    proof {
                                        lemma_checks_prefix_none(items@, i + 1 as int, n as int);
                                    }
                                    return None;
                                },
                            };
                            match build_properties(pnodes) {
                                Some(props) => {
                                    cs.push(
                                        Check {
                                            inventory_name: inv_name.clone(),
                                            properties: props,
                                        },
                                    );
                                    proof {
                                        assert(cs.deep_view() =~= checks_prefix(
                                            items@,
                                            i + 1 as int,
                                        ).unwrap());
                                    }
                                    true
                                },
                                None => false,
                            }
                        },
                        _ => true,
                    }
                },
            },
            _ => false,
        };
        if !ok {
            proof {
                lemma_checks_prefix_none(items@, i + 1 as int, n as int);
            }
            return None;
        }
        i += 1;
    }
    Some(cs)
}

impl CheckSuite {
    /// Reads a check suite out of a YAML text: the parsed first document
    /// must be a list whose mappings the two extraction passes accept.
    pub fn read_from_string(text: &str) -> (r: Option<CheckSuite>)
        ensures
            r matches Some(cs) ==> crate::checks::suite_model_of(
                crate::yaml::yaml_documents(text@),
            ) == Some(cs@),
            r is None ==> crate::checks::suite_model_of(crate::yaml::yaml_documents(text@))
                is None,
    {
        let docs = match crate::yaml::load_documents(text) {
            Some(d) => d,
            None => {
                return None;
            },
        };
        if docs.len() == 0 {
            return None;
        }
        let items = match &docs[0] {
            YamlNode::Array(v) => v,
            _ => {
                return None;
            },
        };
        let inventory = match build_inventory(items) {
            Some(inv) => inv,
            None => {
                return None;
            },
        };
        let checks = match build_checks(items) {
            Some(cs) => cs,
            None => {
                return None;
            },
        };
        Some(CheckSuite { inventory, checks })
    }
}

/// The suite a parse result describes: the first document must be a list,
/// and both passes over its items must succeed.
pub open spec fn suite_model_of(docs: Option<Vec<YamlNode>>) -> Option<SuiteModel> {
    match docs {
        None => None,
        Some(ds) => if ds@.len() == 0 {
            None
        } else {
            match ds@[0] {
                YamlNode::Array(items) => match inventory_prefix(items@, items@.len() as int) {
                    Some(inv) => match checks_prefix(items@, items@.len() as int) {
                        Some(cs) => Some(SuiteModel { inventory: inv, checks: cs }),
                        None => None,
                    },
                    None => None,
                },
                _ => None,
            }
        },
    }
}

/// The port a property's parameters name, when the `port` entry is there
/// and parses as an unsigned 16-bit number.
pub open spec fn spec_port_of(p: PropertyModel) -> Option<u16> {
    match spec_lookup(p.params, "port"@) {
        Some(v) => parse_u16_spec(v),
        None => None,
    }
}

/// A property can be probed when it names a valid port.
pub open spec fn property_wf(p: PropertyModel) -> bool {
    spec_port_of(p) is Some
}

/// A check can run when its group resolves and all its properties name
/// valid ports.
pub open spec fn check_wf(s: SuiteModel, c: CheckModel) -> bool {
    &&& spec_lookup(s.inventory, c.inventory_name) is Some
    &&& forall|j: int| 0 <= j < c.properties.len() ==> property_wf(#[trigger] c.properties[j])
}

/// A suite can run when each of its checks can.
pub open spec fn suite_wf(s: SuiteModel) -> bool {
    forall|i: int| 0 <= i < s.checks.len() ==> check_wf(s, #[trigger] s.checks[i])
}

impl Property {
    /// The property's port parameter: `spec_port_of` made executable.
    pub fn port(&self) -> (r: Option<u16>)
        ensures
            r == spec_port_of(self@),
    {
        proof {
            lemma_kwargs_lookup(self.params@, "port"@, 0);
        }
        match self.params.get("port") {
            Some(v) => crate::text::parse_u16(v.as_str()),
            None => None,
        }
    }

    /// A fieldwise copy.
    pub fn duplicate(&self) -> (r: Property)
        ensures
            r@ == self@,
    {
        Property {
            name: self.name.clone(),
            module: self.module.clone(),
            params: self.params.duplicate(),
        }
    }
}

impl Check {
    /// Whether every property of this check names a valid port.
    pub fn properties_wf(&self) -> (r: bool)
        ensures
            r == (forall|j: int|
                0 <= j < self@.properties.len() ==> property_wf(#[trigger] self@.properties[j])),
    {
        let n = self.properties.len();
        let mut j: usize = 0;
        while j < n
            invariant
                0 <= j <= n,
                n == self.properties@.len(),
                forall|l: int| 0 <= l < j ==> property_wf(#[trigger] self@.properties[l]),
            decreases n - j,
        {
            if self.properties[j].port().is_none() {
                proof {
                    assert(self@.properties[j as int] == self.properties@[j as int]@);
                    assert(!property_wf(self@.properties[j as int]));
                }
                return false;
            }
            j += 1;
        }
        true
    }

    /// A fieldwise copy.
    pub fn duplicate(&self) -> (r: Check)
        ensures
            r@ == self@,
    {
        let n = self.properties.len();
        let mut properties: Vec<Property> = Vec::new();
        let mut i: usize = 0;
        while i < n
            invariant
                0 <= i <= n,
                n == self.properties@.len(),
                properties@.len() == i,
                properties.deep_view() =~= self.properties.deep_view().subrange(0, i as int),
            decreases n - i,
        {
            properties.push(self.properties[i].duplicate());
            proof {
                assert forall|k: int| 0 <= k < i + 1 implies properties.deep_view()[k]
                    == self.properties.deep_view().subrange(0, i + 1 as int)[k] by {
                    assert(properties.deep_view()[k] == properties@[k].deep_view());
                    assert(self.properties.deep_view()[k] == self.properties@[k].deep_view());
                }
                assert(properties.deep_view() =~= self.properties.deep_view().subrange(
                    0,
                    i + 1 as int,
                ));
            }
            i += 1;
        }
        let r = Check { inventory_name: self.inventory_name.clone(), properties };
        proof {
            assert(r.properties.deep_view() =~= self.properties.deep_view());
        }
        r
    }
}

/// An entrywise copy of an inventory; the groups keep their content.
pub fn duplicate_inventory(inv: &Inventory) -> (r: Inventory)
    ensures
        inventory_model(r@) == inventory_model(inv@),
{
    let n = inv.len();
    let mut r: Inventory = Table::new();
    let mut i: usize = 0;
    while i < n
        invariant
            0 <= i <= n,
            n == inv@.len(),
            r@.len() == i,
            inventory_model(r@) =~= inventory_model(inv@).subrange(0, i as int),
        decreases n - i,
    {
        let e = inv.entry_at(i);
        r.push_entry(e.0.clone(), crate::text::clone_strings(&e.1));
        proof {
            assert(inventory_model(r@) =~= inventory_model(inv@).subrange(0, i + 1 as int));
        }
        i += 1;
    }
    proof {
        assert(inventory_model(r@) =~= inventory_model(inv@));
    }
    r
}

impl CheckSuite {
    /// Whether the whole suite can run: `suite_wf` made executable.
    pub fn is_well_formed(&self) -> (r: bool)
        ensures
            r == suite_wf(self@),
    {
        let n = self.checks.len();
        let mut i: usize = 0;
        while i < n
            invariant
                0 <= i <= n,
                n == self.checks@.len(),
                forall|k: int| 0 <= k < i ==> check_wf(self@, #[trigger] self@.checks[k]),
            decreases n - i,
        {
            let check = &self.checks[i];
            proof {
                lemma_inventory_lookup(self.inventory@, check.inventory_name@, 0);
            }
            if self.inventory.get(check.inventory_name.as_str()).is_none() {
                proof {
                    assert(self@.checks[i as int] == check@);
                    assert(!check_wf(self@, self@.checks[i as int]));
                }
                return false;
            }
            if !check.properties_wf() {
                proof {
                    assert(self@.checks[i as int] == check@);
                    assert(!check_wf(self@, self@.checks[i as int]));
                }
                return false;
            }
            i += 1;
        }
        true
    }

    /// A fieldwise copy.
    pub fn duplicate(&self) -> (r: CheckSuite)
        ensures
            r@ == self@,
    {
        let n = self.checks.len();
        let mut checks: Vec<Check> = Vec::new();
        let mut i: usize = 0;
        while i < n
            invariant
                0 <= i <= n,
                n == self.checks@.len(),
                checks@.len() == i,
                checks.deep_view() =~= self.checks.deep_view().subrange(0, i as int),
            decreases n - i,
        {
            checks.push(self.checks[i].duplicate());
            proof {
                assert forall|k: int| 0 <= k < i + 1 implies checks.deep_view()[k]
                    == self.checks.deep_view().subrange(0, i + 1 as int)[k] by {
                    assert(checks.deep_view()[k] == checks@[k].deep_view());
                    assert(self.checks.deep_view()[k] == self.checks@[k].deep_view());
                }
                assert(checks.deep_view() =~= self.checks.deep_view().subrange(0, i + 1 as int));
            }
            i += 1;
        }
        let r = CheckSuite { inventory: duplicate_inventory(&self.inventory), checks };
        proof {
            assert(r.checks.deep_view() =~= self.checks.deep_view());
        }
        r
    }
}

} // verus!
