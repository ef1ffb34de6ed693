use twotech_filter::catalog::{find_target_ingredient, join, SharedGameObject};
use twotech_filter::clothing::ClothingType;
use twotech_filter::codec::Fixed;
use twotech_filter::files::object_file_id;
use twotech_filter::object::OneLifeDataObject;
use twotech_filter::query::{
    contains_any_set, resolve_ingredient_names, sort_by_name, F32Range, I32Range, IngredientSet,
    Query,
};
use twotech_filter::twotech::{
    deserialize_move_distance, GetNone, JsonScalar, MoveType, ObjectRecipe, RecipeStep,
    TwoTechObject,
};

fn record(id: &str, name: &str) -> TwoTechObject {
    TwoTechObject::new(id.to_string(), name.to_string())
}

fn shared(id: &str, name: &str) -> SharedGameObject {
    SharedGameObject {
        one_life_game_data: OneLifeDataObject::new(id.parse().unwrap(), name.to_string()),
        twotech_data: record(id, name),
    }
}

fn step(actor: Option<&str>, target: Option<&str>) -> RecipeStep {
    RecipeStep {
        id: None,
        mainBranch: None,
        depth: None,
        actorID: actor.map(|s| s.to_string()),
        actorUses: None,
        hand: None,
        uses: None,
        targetID: target.map(|s| s.to_string()),
        targetUses: None,
    }
}

fn with_recipe(mut o: SharedGameObject, ingredients: &[&str], steps: Vec<RecipeStep>) -> SharedGameObject {
    o.twotech_data.recipe = Some(ObjectRecipe {
        steps: if steps.is_empty() { None } else { Some(vec![steps]) },
        ingredients: if ingredients.is_empty() {
            None
        } else {
            Some(ingredients.iter().map(|s| s.to_string()).collect())
        },
    });
    o
}

fn db_of(objs: Vec<SharedGameObject>) -> Vec<(String, SharedGameObject)> {
    objs.into_iter().map(|o| (o.twotech_data.id.clone(), o)).collect()
}

#[test]
fn join_keeps_only_common_keys() {
    let objects = vec![
        ("1".to_string(), OneLifeDataObject::new(1, "A".to_string())),
        ("2".to_string(), OneLifeDataObject::new(2, "B".to_string())),
    ];
    let records = vec![("2".to_string(), record("2", "B")), ("3".to_string(), record("3", "C"))];
    let r = join(objects, records);
    assert_eq!(r.len(), 1);
    assert_eq!(r[0].0, "2");
    assert_eq!(r[0].1.one_life_game_data.name, "B");
    assert_eq!(r[0].1.twotech_data.id, "2");
}

#[test]
fn join_keeps_key_order() {
    let objects = vec![
        ("1".to_string(), OneLifeDataObject::new(1, "A".to_string())),
        ("2".to_string(), OneLifeDataObject::new(2, "B".to_string())),
        ("3".to_string(), OneLifeDataObject::new(3, "C".to_string())),
    ];
    let records = vec![
        ("3".to_string(), record("3", "C")),
        ("1".to_string(), record("1", "A")),
        ("2".to_string(), record("2", "B")),
    ];
    let keys: Vec<String> = join(objects, records).into_iter().map(|(k, _)| k).collect();
    assert_eq!(keys, vec!["1".to_string(), "2".to_string(), "3".to_string()]);
}

#[test]
fn join_of_empty_sides() {
    let r = join(Vec::new(), vec![("3".to_string(), record("3", "C"))]);
    assert!(r.is_empty());
}

#[test]
fn direct_ingredient_is_found_at_the_root() {
    let x = with_recipe(shared("10", "X"), &["11"], vec![]);
    let db = db_of(vec![shared("11", "Y")]);
    let found = find_target_ingredient(&x, &"11".to_string(), &db).unwrap();
    assert_eq!(found.twotech_data.id, "10");
}

#[test]
fn root_itself_is_the_target() {
    let x = shared("10", "X");
    let db = db_of(vec![]);
    let found = find_target_ingredient(&x, &"10".to_string(), &db).unwrap();
    assert_eq!(found.twotech_data.name, "X");
}

#[test]
fn ingredient_found_through_steps() {
    let x = with_recipe(shared("10", "X"), &[], vec![step(Some("11"), None)]);
    let y = with_recipe(shared("11", "Y"), &["12"], vec![]);
    let db = db_of(vec![x, y, shared("12", "Z")]);
    let root = &db[0].1;
    let found = find_target_ingredient(root, &"12".to_string(), &db).unwrap();
    assert_eq!(found.twotech_data.id, "11");
}

#[test]
fn cycle_ends_without_a_find() {
    let x = with_recipe(shared("10", "X"), &["11"], vec![]);
    let y = with_recipe(shared("11", "Y"), &[], vec![step(None, Some("10"))]);
    let db = db_of(vec![x, y]);
    let root = &db[0].1;
    assert!(find_target_ingredient(root, &"99".to_string(), &db).is_none());
}

#[test]
fn missing_ingredient_entry_is_not_followed() {
    let x = with_recipe(shared("10", "X"), &["55"], vec![]);
    let db = db_of(vec![x]);
    let root = &db[0].1;
    assert!(find_target_ingredient(root, &"77".to_string(), &db).is_none());
    assert!(find_target_ingredient(root, &"55".to_string(), &db).is_some());
}

#[test]
fn ingredient_sets_are_alternatives_of_requirements() {
    let obj = with_recipe(shared("10", "X"), &["1", "2"], vec![]);
    let only_a = with_recipe(shared("20", "W"), &["1"], vec![]);
    let db = db_of(vec![shared("1", "A"), shared("2", "B"), shared("3", "C")]);
    let sets = vec![vec!["1".to_string(), "2".to_string()], vec!["3".to_string()]];
    assert!(contains_any_set(&obj, &sets, &db));
    assert!(!contains_any_set(&only_a, &sets, &db));
    assert!(!contains_any_set(&obj, &vec![], &db));
}

#[test]
fn names_resolve_to_identifiers() {
    let db = db_of(vec![shared("1", "Apple"), shared("2", "Basket")]);
    let sets = vec![IngredientSet::from_str("Basket,Nothing,Apple")];
    let ids = resolve_ingredient_names(&sets, &db);
    assert_eq!(ids, vec![vec!["2".to_string(), "1".to_string()]]);
}

fn item(id: &str, name: &str, craftable: bool, clothing: ClothingType, slots: i32) -> SharedGameObject {
    let mut o = shared(id, name);
    o.twotech_data.craftable = Some(craftable);
    o.twotech_data.clothing = Some(clothing);
    o.twotech_data.numSlots = Some(slots);
    o
}

fn head_query() -> Query {
    Query {
        clothing: vec![ClothingType::Head],
        move_types: vec![],
        min_pickup_age: 0,
        num_slots: I32Range { start: 0, end: 5 },
        slot_size: None,
        is_food: None,
        total_food_value: None,
        immediate_food_value: None,
        bonus_food_value: None,
        container_slot_type: None,
    }
}

#[test]
fn filter_scenario_sorted_by_name() {
    let all = vec![
        item("1", "Wool Hat", true, ClothingType::Head, 0),
        item("2", "Basket Hat", true, ClothingType::Head, 3),
        item("3", "Crown", false, ClothingType::Head, 0),
        item("4", "Backpack", true, ClothingType::Pack, 4),
        item("5", "Big Hat", true, ClothingType::Head, 9),
    ];
    let q = head_query();
    let kept: Vec<SharedGameObject> = all.into_iter().filter(|o| q.matches(o)).collect();
    let sorted = sort_by_name(kept);
    let names: Vec<&str> = sorted.iter().map(|o| o.twotech_data.name.as_str()).collect();
    assert_eq!(names, vec!["Basket Hat", "Wool Hat"]);
}

#[test]
fn removed_objects_and_food_filters() {
    let mut q = head_query();
    assert!(!q.matches(&item("1", "Hat removed", true, ClothingType::Head, 0)));
    let mut food = item("2", "Berry Hat", true, ClothingType::Head, 0);
    food.twotech_data.foodValue = Some(vec![3, 4]);
    q.total_food_value = Some(I32Range { start: 7, end: 7 });
    assert!(q.matches(&food));
    q.total_food_value = Some(I32Range { start: 8, end: 10 });
    assert!(!q.matches(&food));
    q.total_food_value = None;
    q.is_food = Some(false);
    assert!(!q.matches(&food));
    q.is_food = Some(true);
    assert!(q.matches(&food));
    q.slot_size = Some(F32Range { start: Fixed { micros: 0 }, end: Fixed { micros: 1_000_000 } });
    assert!(!q.matches(&food));
    food.twotech_data.slotSize = Some(Fixed { micros: 500_000 });
    assert!(q.matches(&food));
}

#[test]
fn ranges_from_arguments() {
    assert_eq!(I32Range::from_str("1..5").unwrap(), I32Range { start: 1, end: 5 });
    assert_eq!(I32Range::from_str("4..").unwrap(), I32Range { start: 4, end: i32::MAX });
    assert_eq!(I32Range::from_str("..2").unwrap(), I32Range { start: 0, end: 2 });
    assert_eq!(I32Range::from_str("7").unwrap(), I32Range { start: 7, end: 7 });
    assert!(I32Range::from_str("1..2..3").is_err());
    assert!(I32Range::from_str("a..2").is_err());
    let f = F32Range::from_str("0.1..8").unwrap();
    assert_eq!(f.start, Fixed { micros: 100_000 });
    assert_eq!(f.end, Fixed { micros: 8_000_000 });
    let g = F32Range::from_str("1.5").unwrap();
    assert_eq!(g.start, g.end);
}

#[test]
fn ingredient_set_from_argument() {
    let s = IngredientSet::from_str("A,B");
    assert_eq!(s.0, vec!["A".to_string(), "B".to_string()]);
}

#[test]
fn move_types() {
    assert_eq!(MoveType::from_str("Chase"), Ok(MoveType::Chase));
    assert_eq!(MoveType::from_str("3"), Ok(MoveType::Random));
    assert_eq!(MoveType::from_str("no ne"), Ok(MoveType::Still));
    assert_eq!(MoveType::from_str("NORTH_"), Ok(MoveType::North));
    assert!(MoveType::from_str("9").is_err());
    assert!(MoveType::from_str("fly").is_err());
    assert_eq!(MoveType::Find.to_i32(), 8);
    assert_eq!(MoveType::Still.to_string(), "None");
    assert_eq!(MoveType::all().len(), 9);
    assert_eq!(MoveType::deserialize_move_type(&JsonScalar::Integer(2)), Ok(MoveType::Flee));
    assert_eq!(MoveType::deserialize_move_type(&JsonScalar::Text("WEST".to_string())), Ok(MoveType::West));
    assert_eq!(MoveType::deserialize_move_type(&JsonScalar::Null), Ok(MoveType::Still));
    assert!(MoveType::deserialize_move_type(&JsonScalar::Integer(9)).is_err());
    assert!(MoveType::deserialize_move_type(&JsonScalar::OtherNumber).is_err());
    assert_eq!(MoveType::deserialize_move_type(&JsonScalar::Text("2".to_string())), Ok(MoveType::Flee));
    assert!(MoveType::deserialize_move_type(&JsonScalar::Text("9".to_string())).is_err());
    assert!(MoveType::deserialize_move_type(&JsonScalar::Text("fly".to_string())).is_err());
}

#[test]
fn move_distances() {
    assert_eq!(deserialize_move_distance(&JsonScalar::Text("12".to_string())), Ok(Some(12)));
    assert_eq!(deserialize_move_distance(&JsonScalar::Integer(5)), Ok(Some(5)));
    assert_eq!(deserialize_move_distance(&JsonScalar::Null), Ok(None));
    assert!(deserialize_move_distance(&JsonScalar::Text("x".to_string())).is_err());
    assert!(deserialize_move_distance(&JsonScalar::Compound).is_err());
    assert_eq!(GetNone::<i32>(), None);
}

#[test]
fn object_file_names() {
    assert_eq!(object_file_id("123.txt"), Some("123".to_string()));
    assert_eq!(object_file_id("abc.txt"), None);
    assert_eq!(object_file_id("12.txt.bak"), None);
    assert_eq!(object_file_id(".txt"), None);
}
