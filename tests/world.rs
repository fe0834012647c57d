use game_engine::{Ingredient, Location, Menu, Point, Recipe, Wall, WorldMap};

fn ingredients(names: &[&str]) -> Vec<Ingredient> {
    names.iter().map(|n| Ingredient::new(n.to_string())).collect()
}

#[test]
fn ingredient_keeps_name() {
    let i = Ingredient::new("tomato".to_string());
    assert_eq!(i.name, "tomato");
}

#[test]
fn menu_keeps_name_and_ingredient_order() {
    let m = Menu::new("salad".to_string(), ingredients(&["lettuce", "tomato", "onion"]));
    assert_eq!(m.name, "salad");
    let names: Vec<&str> = m.ingredients.iter().map(|i| i.name.as_str()).collect();
    assert_eq!(names, vec!["lettuce", "tomato", "onion"]);
}

#[test]
fn menu_with_no_ingredients() {
    let m = Menu::new(String::new(), Vec::new());
    assert_eq!(m.name, "");
    assert!(m.ingredients.is_empty());
}

#[test]
fn recipe_keeps_menus_in_order() {
    let a = Menu::new("soup".to_string(), ingredients(&["water"]));
    let b = Menu::new("bread".to_string(), ingredients(&["flour", "salt"]));
    let r = Recipe::new("dinner".to_string(), vec![a.clone(), b.clone()]);
    assert_eq!(r.name, "dinner");
    assert_eq!(r.menus, vec![a, b]);
}

#[test]
fn point_and_wall_keep_coordinates() {
    let p = Point::new(3, 4);
    assert_eq!((p.x, p.y), (3, 4));
    let w = Wall::new(Point::new(0, 0), Point::new(u32::MAX, 7));
    assert_eq!(w.start, Point::new(0, 0));
    assert_eq!(w.end.x, u32::MAX);
    assert_eq!(w.end.y, 7);
}

#[test]
fn location_keeps_its_fields() {
    let l = Location::new("pantry".to_string(), Point::new(2, 1), ingredients(&["rice"]));
    assert_eq!(l.name, "pantry");
    assert_eq!(l.position, Point::new(2, 1));
    assert_eq!(l.ingredients, ingredients(&["rice"]));
}

#[test]
fn new_map_is_empty() {
    let m = WorldMap::new(10, 5);
    assert_eq!(m.width, 10);
    assert_eq!(m.height, 5);
    assert!(m.walls.is_empty());
    assert!(m.locations.is_empty());
    assert!(m.loaded_recipe.is_none());
}

#[test]
fn walls_and_locations_append_in_call_order() {
    let mut m = WorldMap::new(8, 8);
    let w1 = Wall::new(Point::new(0, 0), Point::new(0, 7));
    let w2 = Wall::new(Point::new(1, 1), Point::new(5, 1));
    let l1 = Location::new("stove".to_string(), Point::new(2, 2), Vec::new());
    let l2 = Location::new("fridge".to_string(), Point::new(3, 3), ingredients(&["milk"]));
    m.add_wall(w1);
    m.add_location(l1.clone());
    m.add_wall(w2);
    m.add_wall(w1);
    m.add_location(l2.clone());
    m.add_location(l1.clone());
    assert_eq!(m.walls, vec![w1, w2, w1]);
    assert_eq!(m.locations, vec![l1.clone(), l2, l1]);
    assert_eq!((m.width, m.height), (8, 8));
    assert!(m.loaded_recipe.is_none());
}

#[test]
fn second_recipe_replaces_first() {
    let r1 = Recipe::new("breakfast".to_string(), Vec::new());
    let r2 = Recipe::new(
        "lunch".to_string(),
        vec![Menu::new("pasta".to_string(), ingredients(&["noodles"]))],
    );
    let mut m = WorldMap::new(4, 4);
    m.load_recipe(r1.clone());
    assert_eq!(m.loaded_recipe, Some(r1.clone()));
    m.load_recipe(r2.clone());
    assert_eq!(m.loaded_recipe, Some(r2));
    assert_ne!(m.loaded_recipe, Some(r1));
}

#[test]
fn ingredients_with_same_name_are_equal() {
    assert_eq!(Ingredient::new("egg".to_string()), Ingredient::new("egg".to_string()));
    assert_ne!(Ingredient::new("egg".to_string()), Ingredient::new("eggs".to_string()));
}

#[test]
fn menus_with_same_contents_are_equal() {
    let a = Menu::new("omelette".to_string(), ingredients(&["egg", "cheese"]));
    let b = Menu::new("omelette".to_string(), ingredients(&["egg", "cheese"]));
    assert_eq!(a, b);
    let reordered = Menu::new("omelette".to_string(), ingredients(&["cheese", "egg"]));
    assert_ne!(a, reordered);
    let renamed = Menu::new("frittata".to_string(), ingredients(&["egg", "cheese"]));
    assert_ne!(a, renamed);
    let shorter = Menu::new("omelette".to_string(), ingredients(&["egg"]));
    assert_ne!(a, shorter);
}

#[test]
fn recipes_locations_and_maps_compare_by_contents() {
    let menu = Menu::new("tea".to_string(), ingredients(&["leaves"]));
    assert_eq!(
        Recipe::new("r".to_string(), vec![menu.clone()]),
        Recipe::new("r".to_string(), vec![menu.clone()])
    );
    assert_ne!(Recipe::new("r".to_string(), vec![menu]), Recipe::new("r".to_string(), Vec::new()));
    let l = Location::new("shelf".to_string(), Point::new(1, 2), Vec::new());
    let moved = Location::new("shelf".to_string(), Point::new(2, 1), Vec::new());
    assert_ne!(l, moved);
    let mut a = WorldMap::new(3, 3);
    let mut b = WorldMap::new(3, 3);
    assert_eq!(a, b);
    a.add_wall(Wall::new(Point::new(0, 0), Point::new(1, 0)));
    assert_ne!(a, b);
    b.add_wall(Wall::new(Point::new(0, 0), Point::new(1, 0)));
    assert_eq!(a, b);
    a.add_location(l.clone());
    b.add_location(moved);
    assert_ne!(a, b);
    assert_ne!(WorldMap::new(3, 4), WorldMap::new(4, 3));
}
