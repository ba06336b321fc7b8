use project_cleaner::match_data::GroupOverride;
use project_cleaner::CommentedLang;
use project_cleaner::IconColor;
use project_cleaner::Lang;
use project_cleaner::MatchData;
use project_cleaner::MatchParameters;

fn lang(name: &'static str) -> Lang {
    Lang { name, icon: "*", short: "x", color: IconColor::new(3, 4) }
}

fn params(name: &'static str, comment: &str, weight: i32) -> MatchParameters {
    let mut p = MatchParameters::new(CommentedLang { lang: lang(name), comment: comment.to_string() });
    p.weight(weight);
    p
}

fn group_name(g: &GroupOverride) -> String {
    match g {
        GroupOverride::Unset => "unset".to_string(),
        GroupOverride::Override(p) => format!("override:{}", p),
        GroupOverride::Conflict => "conflict".to_string(),
    }
}

#[test]
fn new_parameters_have_the_default_weight() {
    let p = MatchParameters::new(CommentedLang { lang: lang("Rust"), comment: "why".to_string() });
    assert_eq!(p.weight, 1000);
    assert_eq!(MatchParameters::DEFAULT_WEIGHT, 1000);
    assert_eq!(p.languages.len(), 1);
    assert_eq!(p.languages[0].comment, "why");
    assert_eq!(group_name(&p.group_override), "unset");
    assert!(!p.dangerous);
    assert!(!p.hidden);
}

#[test]
fn setters_chain() {
    let mut p = params("Git", "c", 1);
    p.weight(-10000).custom_group("/repo".to_string()).dangerous().hidden();
    assert_eq!(p.weight, -10000);
    assert_eq!(group_name(&p.group_override), "override:/repo");
    assert!(p.dangerous);
    assert!(p.hidden);
}

#[test]
fn addition_sums_weights_and_concatenates_reasons() {
    let a = params("Rust", "a", 1000);
    let b = params("Git", "b", 500);
    let c = a.add(b);
    assert_eq!(c.weight, 1500);
    let names: Vec<&str> = c.languages.iter().map(|l| l.name()).collect();
    assert_eq!(names, vec!["Rust", "Git"]);
}

#[test]
fn addition_is_associative_on_concrete_values() {
    let left = params("A", "a", 3).add(params("B", "b", -5)).add(params("C", "c", 7));
    let right = params("A", "a", 3).add(params("B", "b", -5).add(params("C", "c", 7)));
    assert_eq!(left.weight, 5);
    assert_eq!(right.weight, 5);
    let l: Vec<&str> = left.languages.iter().map(|l| l.name()).collect();
    let r: Vec<&str> = right.languages.iter().map(|l| l.name()).collect();
    assert_eq!(l, r);
}

#[test]
fn addition_is_commutative_on_weight() {
    let ab = params("A", "a", 3).add(params("B", "b", -5));
    let ba = params("B", "b", -5).add(params("A", "a", 3));
    assert_eq!(ab.weight, ba.weight);
    let mut l: Vec<&str> = ab.languages.iter().map(|l| l.name()).collect();
    let mut r: Vec<&str> = ba.languages.iter().map(|l| l.name()).collect();
    assert_eq!(l, vec!["A", "B"]);
    assert_eq!(r, vec!["B", "A"]);
    l.sort();
    r.sort();
    assert_eq!(l, r);
}

#[test]
fn sum_of_a_list_starts_from_nothing() {
    let list = vec![params("A", "a", 1000), params("B", "b", 500), params("C", "c", -2000)];
    let total = MatchParameters::sum(&list);
    assert_eq!(total.weight, -500);
    assert_eq!(total.languages.len(), 3);
    let none = MatchParameters::sum(&Vec::new());
    assert_eq!(none.weight, 0);
    assert_eq!(none.languages.len(), 0);
}

#[test]
fn sum_holds_the_weight_in_range() {
    let list = vec![params("A", "a", i32::MAX), params("B", "b", i32::MAX), params("C", "c", 5)];
    assert_eq!(MatchParameters::sum(&list).weight, i32::MAX);
    let low = vec![params("A", "a", i32::MIN), params("B", "b", -1)];
    assert_eq!(MatchParameters::sum(&low).weight, i32::MIN);
    let back = vec![params("A", "a", i32::MAX), params("B", "b", i32::MAX), params("C", "c", i32::MIN)];
    assert_eq!(MatchParameters::sum(&back).weight, i32::MAX - 1);
}

#[test]
fn group_override_is_idempotent_on_equal_overrides() {
    let a = GroupOverride::Override("/p".to_string());
    let b = GroupOverride::Override("/p".to_string());
    assert_eq!(group_name(&a.add(b)), "override:/p");
}

#[test]
fn group_override_absorbs_unset() {
    let a = GroupOverride::Unset.add(GroupOverride::Override("/p".to_string()));
    assert_eq!(group_name(&a), "override:/p");
    let b = GroupOverride::Override("/p".to_string()).add(GroupOverride::Unset);
    assert_eq!(group_name(&b), "override:/p");
    assert_eq!(group_name(&GroupOverride::Unset.add(GroupOverride::Unset)), "unset");
}

#[test]
fn group_override_conflicts_on_unequal_overrides() {
    let a = GroupOverride::Override("/p".to_string()).add(GroupOverride::Override("/q".to_string()));
    assert_eq!(group_name(&a), "conflict");
}

#[test]
fn group_override_conflict_is_absorbing() {
    assert_eq!(group_name(&GroupOverride::Conflict.add(GroupOverride::Unset)), "conflict");
    assert_eq!(
        group_name(&GroupOverride::Conflict.add(GroupOverride::Override("/p".to_string()))),
        "conflict"
    );
    assert_eq!(
        group_name(&GroupOverride::Override("/p".to_string()).add(GroupOverride::Conflict)),
        "conflict"
    );
    assert_eq!(group_name(&GroupOverride::Unset.add(GroupOverride::Conflict)), "conflict");
}

#[test]
fn match_data_group_prefers_the_override() {
    let mut p = params("Git", "c", 500);
    p.custom_group("/repo".to_string());
    let m = MatchData::new("/repo/a/x.log".to_string(), "/repo/a".to_string(), false, p);
    assert_eq!(m.group(), "/repo");
    assert_eq!(m.path(), "/repo/a/x.log");
    assert_eq!(m.weight(), 500);
    let plain = MatchData::new("/r/target".to_string(), "/r".to_string(), true, params("Rust", "c", 1000));
    assert_eq!(plain.group(), "/r");
    assert!(plain.dangerous());
    let conflict = params("A", "a", 1).add({
        let mut q = params("B", "b", 1);
        q.custom_group("/x".to_string());
        q
    }).add({
        let mut q = params("C", "c", 1);
        q.custom_group("/y".to_string());
        q
    });
    let m = MatchData::new("/d/e".to_string(), "/d".to_string(), false, conflict);
    assert_eq!(m.group(), "/d");
    assert_eq!(m.weight(), 3);
    assert_eq!(m.languages().len(), 3);
    let copy = m.clone();
    assert_eq!(copy.path(), "/d/e");
    assert_eq!(copy.weight(), 3);
}

#[test]
fn commented_lang_getters() {
    let c = CommentedLang { lang: lang("Rust"), comment: "Found it".to_string() };
    assert_eq!(c.name(), "Rust");
    assert_eq!(c.icon(), "*");
    assert_eq!(c.short(), "x");
    assert_eq!(c.color(), IconColor { normal: 3, selected: 4 });
    assert_eq!(c.color().normal(), 3);
    assert_eq!(c.color().selected(), 4);
    assert_eq!(c.describe(), "Rust - Found it");
    assert_eq!(c.lang.label(), "Rust");
    assert_eq!(IconColor::uniform(9), IconColor::new(9, 9));
}

#[test]
fn languages_are_equal_by_name() {
    let a = Lang { name: "Rust", icon: "a", short: "rs", color: IconColor::uniform(1) };
    let b = Lang { name: "Rust", icon: "b", short: "r", color: IconColor::uniform(2) };
    let c = Lang { name: "Git", icon: "a", short: "rs", color: IconColor::uniform(1) };
    assert!(a == b);
    assert!(a != c);
}

#[test]
fn languages_are_ordered_by_name() {
    let a = lang("Git");
    let b = lang("Rust");
    assert!(a < b);
    assert!(!(b < a));
    assert!(a <= a);
    assert_eq!(a.partial_cmp(&b), Some(std::cmp::Ordering::Less));
    assert_eq!(b.partial_cmp(&a), Some(std::cmp::Ordering::Greater));
    assert_eq!(a.partial_cmp(&lang("Git")), Some(std::cmp::Ordering::Equal));
    assert!(lang("Gi") < lang("Git"));
    assert!(lang("") < lang("A"));
}

#[test]
fn defaults_say_nothing() {
    let p = MatchParameters::default();
    assert_eq!(p.weight, 0);
    assert!(p.languages.is_empty());
    assert_eq!(group_name(&p.group_override), "unset");
    assert_eq!(group_name(&GroupOverride::default()), "unset");
    let e = MatchParameters::empty();
    assert_eq!(e.weight, 0);
    assert_eq!(params("A", "a", 5).add(p).weight, 5);
}
