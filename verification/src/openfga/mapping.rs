//! The OpenFGA model's resource types, as the UI lists them.
use vstd::prelude::*;
use crate::text::{owned, str_eq};
use super::types::{ResourceView, opt_view};
use super::catalog::{lemma_insert_to_multiset, lemma_filter_take_step, lemma_push_to_multiset,
    lemma_empty_to_multiset};

verus! {

/// Resource definition of the OpenFGA model.
#[derive(Debug, Clone)]
pub struct Resource {
    /// Resource key, such as "logs".
    pub key: String,
    /// Display name, such as "Logs".
    pub display_name: String,
    /// Parent resource type, such as "stream" for logs.
    pub parent: Option<String>,
    /// Display order.
    pub order: i32,
    /// Whether the resource is shown in the UI.
    pub visible: bool,
    /// Whether the resource has no parent.
    pub top_level: bool,
    /// Whether the resource can have individual entities.
    pub has_entities: bool,
}

impl View for Resource {
    type V = ResourceView;

    open spec fn view(&self) -> ResourceView {
        (
            self.key@,
            self.display_name@,
            opt_view(self.parent),
            self.order,
            self.visible,
            self.top_level,
            self.has_entities,
        )
    }
}

impl Resource {
    /// Builds a resource definition; a resource without a parent is top-level.
    fn new(key: &str, display_name: &str, parent: Option<&str>, order: i32, visible: bool, has_entities: bool) -> (r: Resource)
        ensures
            r@ == entry_spec(
                key@,
                display_name@,
                match parent {
                    Some(p) => Some(p@),
                    None => None,
                },
                order,
                visible,
                has_entities,
            ),
    {
        let top_level = parent.is_none();
        Resource {
            key: owned(key),
            display_name: owned(display_name),
            parent: match parent {
                Some(p) => Some(owned(p)),
                None => None,
            },
            order,
            visible,
            top_level,
            has_entities,
        }
    }
}

/// The abstract value of a catalogue entry, given its parts; an entry without a parent is top-level.
pub open spec fn entry_spec(
    key: Seq<char>,
    label: Seq<char>,
    parent: Option<Seq<char>>,
    order: i32,
    visible: bool,
    has_entities: bool,
) -> ResourceView {
    (key, label, parent, order, visible, parent is None, has_entities)
}

/// The abstract values of a sequence of resources.
pub open spec fn views(s: Seq<Resource>) -> Seq<ResourceView> {
    s.map_values(|r: Resource| r@)
}

/// Index of the first entry with the given key.
pub open spec fn find_key(s: Seq<ResourceView>, key: Seq<char>) -> Option<int>
    decreases s.len(),
{
    if s.len() == 0 {
        None
    } else if s[0].0 == key {
        Some(0)
    } else {
        match find_key(s.drop_first(), key) {
            Some(i) => Some(i + 1),
            None => None,
        }
    }
}

proof fn lemma_find_key_found(s: Seq<ResourceView>, key: Seq<char>, i: int)
    requires
        0 <= i < s.len(),
        s[i].0 == key,
        forall|j: int| 0 <= j < i ==> s[j].0 != key,
    ensures
        find_key(s, key) == Some(i),
    decreases s.len(),
{
    if i > 0 {
        lemma_find_key_found(s.drop_first(), key, i - 1);
    }
}

proof fn lemma_find_key_absent(s: Seq<ResourceView>, key: Seq<char>)
    requires
        forall|j: int| 0 <= j < s.len() ==> s[j].0 != key,
    ensures
        find_key(s, key) is None,
    decreases s.len(),
{
    if s.len() > 0 {
        lemma_find_key_absent(s.drop_first(), key);
    }
}

/// Whether the entries are in non-decreasing display order.
pub open spec fn sorted_by_order(s: Seq<ResourceView>) -> bool {
    forall|i: int, j: int| 0 <= i < j < s.len() ==> s[i].3 <= s[j].3
}

/// Which catalogue entries a listing selects.
pub enum Selection {
    /// Entries shown in the UI.
    Visible,
    /// Visible entries without a parent.
    TopLevelVisible,
    /// Entries whose parent is the given key.
    ChildOf(String),
}

/// The predicate of a selection on abstract entries.
pub open spec fn selection_pred(sel: Selection) -> spec_fn(ResourceView) -> bool {
    match sel {
        Selection::Visible => |r: ResourceView| r.4,
        Selection::TopLevelVisible => |r: ResourceView| r.5 && r.4,
        Selection::ChildOf(p) => |r: ResourceView| r.2 == Some(p@),
    }
}

fn selects(sel: &Selection, r: &Resource) -> (b: bool)
    ensures
        b == selection_pred(*sel)(r@),
{
    match sel {
        Selection::Visible => r.visible,
        Selection::TopLevelVisible => r.top_level && r.visible,
        Selection::ChildOf(p) => match &r.parent {
            Some(q) => str_eq(q.as_str(), p.as_str()),
            None => false,
        },
    }
}

fn push_resource(v: &mut Vec<Resource>, r: Resource)
    ensures
        views(final(v)@) == views(old(v)@).push(r@),
{
    proof {
        assert(views(v@.push(r)) =~= views(v@).push(r@));
    }
    v.push(r);
}

fn copy_resource(r: &Resource) -> (c: Resource)
    ensures
        c@ == r@,
{
    Resource {
        key: owned(r.key.as_str()),
        display_name: owned(r.display_name.as_str()),
        parent: match &r.parent {
            Some(p) => Some(owned(p.as_str())),
            None => None,
        },
        order: r.order,
        visible: r.visible,
        top_level: r.top_level,
        has_entities: r.has_entities,
    }
}

/// The selected catalogue entries, ordered by display order; entries of equal order may
/// come in any order.
fn select_sorted(sel: &Selection) -> (out: Vec<Resource>)
    ensures
        views(out@).to_multiset() == ofga_catalog().filter(selection_pred(*sel)).to_multiset(),
        sorted_by_order(views(out@)),
{
    let table = ofga_models();
    let ghost pred = selection_pred(*sel);
    let mut out: Vec<Resource> = Vec::new();
    proof {
        lemma_empty_to_multiset(views(out@));
        assert(ofga_catalog().take(0) =~= Seq::<ResourceView>::empty());
        reveal_with_fuel(Seq::filter, 1);
        lemma_empty_to_multiset(ofga_catalog().take(0).filter(pred));
    }
    let n = table.len();
    for i in 0..n
        invariant
            n == table@.len(),
            views(table@) == ofga_catalog(),
            pred == selection_pred(*sel),
            views(out@).to_multiset() == ofga_catalog().take(i as int).filter(pred).to_multiset(),
            sorted_by_order(views(out@)),
    {
        proof {
            lemma_filter_take_step(ofga_catalog(), i as int, pred);
            assert(table@[i as int]@ == ofga_catalog()[i as int]);
        }
        if selects(sel, &table[i]) {
            let x = copy_resource(&table[i]);
            let mut p: usize = 0;
            while p < out.len() && out[p].order <= x.order
                invariant
                    p <= out@.len(),
                    forall|j: int| 0 <= j < p ==> out@[j].order <= x.order,
                decreases out@.len() - p,
            {
                p = p + 1;
            }
            let ghost old_views = views(out@);
            proof {
                lemma_insert_to_multiset(old_views, p as int, x@);
                lemma_push_to_multiset(ofga_catalog().take(i as int).filter(pred), x@);
            }
            out.insert(p, x);
            proof {
                assert(views(out@) =~= old_views.insert(p as int, x@));
                assert forall|a: int, b: int| 0 <= a < b < views(out@).len() implies views(
                    out@,
                )[a].3 <= views(out@)[b].3 by {
                    if p < old_views.len() {
                        assert(old_views[p as int].3 > x.order);
                    }
                    if a < p && b > p {
                        assert(old_views[a].3 <= x.order);
                    }
                    if a == p && b > p {
                        assert(old_views[p as int].3 <= old_views[b - 1].3);
                    }
                }
            }
        }
    }
    assert(ofga_catalog().take(n as int) =~= ofga_catalog());
    out
}

/// The definition of a resource type, if the key names one.
pub fn get_resource(key: &str) -> (r: Option<Resource>)
    ensures
        match find_key(ofga_catalog(), key@) {
            Some(i) => r is Some && r->0@ == ofga_catalog()[i],
            None => r is None,
        },
{
    let table = ofga_models();
    let n = table.len();
    for i in 0..n
        invariant
            n == table@.len(),
            views(table@) == ofga_catalog(),
            forall|j: int| 0 <= j < i ==> ofga_catalog()[j].0 != key@,
    {
        proof {
            assert(table@[i as int]@ == ofga_catalog()[i as int]);
        }
        if str_eq(table[i].key.as_str(), key) {
            proof {
                lemma_find_key_found(ofga_catalog(), key@, i as int);
            }
            return Some(copy_resource(&table[i]));
        }
    }
    proof {
        lemma_find_key_absent(ofga_catalog(), key@);
    }
    None
}

/// Whether the key names a resource type.
pub fn is_valid_resource_type(key: &str) -> (r: bool)
    ensures
        r == (find_key(ofga_catalog(), key@) is Some),
{
    get_resource(key).is_some()
}

/// The visible resource types, ordered by display order.
pub fn get_visible_resources() -> (r: Vec<Resource>)
    ensures
        views(r@).to_multiset() == ofga_catalog().filter(selection_pred(Selection::Visible)).to_multiset(),
        sorted_by_order(views(r@)),
{
    select_sorted(&Selection::Visible)
}

/// The visible resource types without a parent, ordered by display order.
pub fn get_top_level_resources() -> (r: Vec<Resource>)
    ensures
        views(r@).to_multiset() == ofga_catalog().filter(selection_pred(Selection::TopLevelVisible)).to_multiset(),
        sorted_by_order(views(r@)),
{
    select_sorted(&Selection::TopLevelVisible)
}

/// The resource types whose parent is `parent_key`, ordered by display order.
pub fn get_child_resources(parent_key: &str) -> (r: Vec<Resource>)
    ensures
        views(r@).to_multiset() == ofga_catalog().filter(
            |e: ResourceView| e.2 == Some(parent_key@),
        ).to_multiset(),
        sorted_by_order(views(r@)),
{
    let sel = Selection::ChildOf(owned(parent_key));
    let r = select_sorted(&sel);
    proof {
        assert(selection_pred(sel) == (|e: ResourceView| e.2 == Some(parent_key@)));
    }
    r
}

/// The catalogue of resource types, in definition order.
pub open spec fn ofga_catalog() -> Seq<ResourceView> {
    seq![
        entry_spec("user"@, "Users"@, None, 1, true, true),
        entry_spec("group"@, "Groups"@, None, 2, true, true),
        entry_spec("role"@, "Roles"@, None, 3, true, true),
        entry_spec("org"@, "Organizations"@, None, 4, true, false),
        entry_spec("stream"@, "Streams"@, None, 10, false, true),
        entry_spec("logs"@, "Logs"@, Some("stream"@), 11, true, true),
        entry_spec("metrics"@, "Metrics"@, Some("stream"@), 12, true, true),
        entry_spec("traces"@, "Traces"@, Some("stream"@), 13, true, true),
        entry_spec("metadata"@, "Metadata"@, Some("stream"@), 14, false, true),
        entry_spec("index"@, "Index"@, Some("stream"@), 15, true, true),
        entry_spec("dfolder"@, "Dashboard Folders"@, None, 20, true, true),
        entry_spec("dashboard"@, "Dashboards"@, Some("dfolder"@), 21, true, true),
        entry_spec("template"@, "Templates"@, None, 22, true, true),
        entry_spec("savedviews"@, "Saved Views"@, None, 23, true, true),
        entry_spec("afolder"@, "Alert Folders"@, None, 30, true, true),
        entry_spec("alert"@, "Alerts"@, Some("afolder"@), 31, true, true),
        entry_spec("destination"@, "Destinations"@, None, 32, true, true),
        entry_spec("rfolder"@, "Report Folders"@, None, 40, true, true),
        entry_spec("report"@, "Reports"@, Some("rfolder"@), 41, true, true),
        entry_spec("function"@, "Functions"@, None, 50, true, true),
        entry_spec("pipeline"@, "Pipelines"@, None, 51, true, true),
        entry_spec("settings"@, "Settings"@, None, 60, true, false),
        entry_spec("kv"@, "KV Store"@, None, 61, true, true),
        entry_spec("enrichment_table"@, "Enrichment Tables"@, None, 62, true, true),
        entry_spec("summary"@, "Summary"@, None, 63, true, true),
        entry_spec("syslog-route"@, "Syslog Routes"@, None, 64, true, true),
        entry_spec("passcode"@, "Passcodes"@, None, 70, true, true),
        entry_spec("rumtoken"@, "RUM Tokens"@, None, 71, true, true),
        entry_spec("service_accounts"@, "Service Accounts"@, None, 72, true, true),
        entry_spec("cipher_keys"@, "Cipher Keys"@, None, 73, true, true),
        entry_spec("search_jobs"@, "Search Jobs"@, None, 80, true, true),
        entry_spec("action_scripts"@, "Action Scripts"@, None, 81, true, true),
        entry_spec("ratelimit"@, "Rate Limits"@, None, 82, true, true),
        entry_spec("ai"@, "AI"@, None, 83, true, false),
        entry_spec("re_patterns"@, "Regex Patterns"@, None, 84, true, true),
        entry_spec("license"@, "License"@, None, 90, true, false),
    ]
}

/// All resource type definitions, in catalogue order.
pub fn ofga_models() -> (v: Vec<Resource>)
    ensures
        views(v@) == ofga_catalog(),
{
    let mut v: Vec<Resource> = Vec::new();
    push_resource(&mut v, Resource::new("user", "Users", None, 1, true, true));
    push_resource(&mut v, Resource::new("group", "Groups", None, 2, true, true));
    push_resource(&mut v, Resource::new("role", "Roles", None, 3, true, true));
    push_resource(&mut v, Resource::new("org", "Organizations", None, 4, true, false));
    push_resource(&mut v, Resource::new("stream", "Streams", None, 10, false, true));
    push_resource(&mut v, Resource::new("logs", "Logs", Some("stream"), 11, true, true));
    push_resource(&mut v, Resource::new("metrics", "Metrics", Some("stream"), 12, true, true));
    push_resource(&mut v, Resource::new("traces", "Traces", Some("stream"), 13, true, true));
    push_resource(&mut v, Resource::new("metadata", "Metadata", Some("stream"), 14, false, true));
    push_resource(&mut v, Resource::new("index", "Index", Some("stream"), 15, true, true));
    push_resource(&mut v, Resource::new("dfolder", "Dashboard Folders", None, 20, true, true));
    push_resource(&mut v, Resource::new("dashboard", "Dashboards", Some("dfolder"), 21, true, true));
    push_resource(&mut v, Resource::new("template", "Templates", None, 22, true, true));
    push_resource(&mut v, Resource::new("savedviews", "Saved Views", None, 23, true, true));
    push_resource(&mut v, Resource::new("afolder", "Alert Folders", None, 30, true, true));
    push_resource(&mut v, Resource::new("alert", "Alerts", Some("afolder"), 31, true, true));
    push_resource(&mut v, Resource::new("destination", "Destinations", None, 32, true, true));
    push_resource(&mut v, Resource::new("rfolder", "Report Folders", None, 40, true, true));
    push_resource(&mut v, Resource::new("report", "Reports", Some("rfolder"), 41, true, true));
    push_resource(&mut v, Resource::new("function", "Functions", None, 50, true, true));
    push_resource(&mut v, Resource::new("pipeline", "Pipelines", None, 51, true, true));
    push_resource(&mut v, Resource::new("settings", "Settings", None, 60, true, false));
    push_resource(&mut v, Resource::new("kv", "KV Store", None, 61, true, true));
    push_resource(&mut v, Resource::new("enrichment_table", "Enrichment Tables", None, 62, true, true));
    push_resource(&mut v, Resource::new("summary", "Summary", None, 63, true, true));
    push_resource(&mut v, Resource::new("syslog-route", "Syslog Routes", None, 64, true, true));
    push_resource(&mut v, Resource::new("passcode", "Passcodes", None, 70, true, true));
    push_resource(&mut v, Resource::new("rumtoken", "RUM Tokens", None, 71, true, true));
    push_resource(&mut v, Resource::new("service_accounts", "Service Accounts", None, 72, true, true));
    push_resource(&mut v, Resource::new("cipher_keys", "Cipher Keys", None, 73, true, true));
    push_resource(&mut v, Resource::new("search_jobs", "Search Jobs", None, 80, true, true));
    push_resource(&mut v, Resource::new("action_scripts", "Action Scripts", None, 81, true, true));
    push_resource(&mut v, Resource::new("ratelimit", "Rate Limits", None, 82, true, true));
    push_resource(&mut v, Resource::new("ai", "AI", None, 83, true, false));
    push_resource(&mut v, Resource::new("re_patterns", "Regex Patterns", None, 84, true, true));
    push_resource(&mut v, Resource::new("license", "License", None, 90, true, false));
    assert(views(v@) =~= ofga_catalog());
    v
}

/// Resource keys that cloud deployments do not offer.
pub open spec fn non_cloud_keys_spec() -> Seq<Seq<char>> {
    seq!["license"@, "cipher_keys"@]
}

/// Resource keys that cloud deployments do not offer.
pub fn non_cloud_resource_keys() -> (r: Vec<&'static str>)
    ensures
        r@.map_values(|s: &'static str| s@) == non_cloud_keys_spec(),
{
    let r = vec!["license", "cipher_keys"];
    assert(r@.map_values(|s: &'static str| s@) =~= non_cloud_keys_spec());
    r
}

} // verus!
