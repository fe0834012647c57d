use vstd::prelude::*;
use vstd::std_specs::cmp::PartialEqSpec;

verus! {

/// A cooking ingredient, identified by its name.
#[derive(Debug, Clone)]
pub struct Ingredient {
    pub name: String,
}

impl View for Ingredient {
    type V = Seq<char>;

    open spec fn view(&self) -> Seq<char> {
        self.name@
    }
}

/// The names of a list of ingredients, in order.
pub open spec fn ingredient_names(s: Seq<Ingredient>) -> Seq<Seq<char>> {
    s.map_values(|i: Ingredient| i@)
}

/// A menu: a name and an ordered list of ingredients.
#[derive(Debug, Clone)]
pub struct Menu {
    pub name: String,
    pub ingredients: Vec<Ingredient>,
}

/// What a menu holds, as plain values.
#[verifier::ext_equal]
pub struct MenuView {
    pub name: Seq<char>,
    pub ingredients: Seq<Seq<char>>,
}

impl View for Menu {
    type V = MenuView;

    open spec fn view(&self) -> MenuView {
        MenuView { name: self.name@, ingredients: ingredient_names(self.ingredients@) }
    }
}

/// A recipe: a name and an ordered list of menus.
#[derive(Debug, Clone)]
pub struct Recipe {
    pub name: String,
    pub menus: Vec<Menu>,
}

/// What a recipe holds, as plain values.
#[verifier::ext_equal]
pub struct RecipeView {
    pub name: Seq<char>,
    pub menus: Seq<MenuView>,
}

/// The views of a list of menus, in order.
pub open spec fn menu_views(s: Seq<Menu>) -> Seq<MenuView> {
    s.map_values(|m: Menu| m@)
}

impl View for Recipe {
    type V = RecipeView;

    open spec fn view(&self) -> RecipeView {
        RecipeView { name: self.name@, menus: menu_views(self.menus@) }
    }
}

/// A point of the map grid.
#[derive(Debug, Clone, Copy, PartialEq, Eq, Structural)]
pub struct Point {
    pub x: u32,
    pub y: u32,
}

/// A wall: the line segment from `start` to `end`.
#[derive(Debug, Clone, Copy, PartialEq, Eq, Structural)]
pub struct Wall {
    pub start: Point,
    pub end: Point,
}

/// A named place on the map, with the ingredients found there.
#[derive(Debug, Clone)]
pub struct Location {
    pub name: String,
    pub position: Point,
    pub ingredients: Vec<Ingredient>,
}

/// What a location holds, as plain values.
#[verifier::ext_equal]
pub struct LocationView {
    pub name: Seq<char>,
    pub position: Point,
    pub ingredients: Seq<Seq<char>>,
}

impl View for Location {
    type V = LocationView;

    open spec fn view(&self) -> LocationView {
        LocationView {
            name: self.name@,
            position: self.position,
            ingredients: ingredient_names(self.ingredients@),
        }
    }
}

/// The views of a list of locations, in order.
pub open spec fn location_views(s: Seq<Location>) -> Seq<LocationView> {
    s.map_values(|l: Location| l@)
}

/// The game map: its size, its walls and locations in the order they were
/// added, and the recipe loaded on it, if any.
#[derive(Debug, Clone)]
pub struct WorldMap {
    pub width: u32,
    pub height: u32,
    pub walls: Vec<Wall>,
    pub locations: Vec<Location>,
    pub loaded_recipe: Option<Recipe>,
}

/// What a map holds, as plain values.
#[verifier::ext_equal]
pub struct WorldMapView {
    pub width: nat,
    pub height: nat,
    pub walls: Seq<Wall>,
    pub locations: Seq<LocationView>,
    pub loaded_recipe: Option<RecipeView>,
}

impl View for WorldMap {
    type V = WorldMapView;

    open spec fn view(&self) -> WorldMapView {
        WorldMapView {
            width: self.width as nat,
            height: self.height as nat,
            walls: self.walls@,
            locations: location_views(self.locations@),
            loaded_recipe: match self.loaded_recipe {
                Some(r) => Some(r@),
                None => None,
            },
        }
    }
}

impl WorldMapView {
    /// A map of the given size with no walls, no locations and no recipe.
    pub open spec fn empty(width: nat, height: nat) -> WorldMapView {
        WorldMapView {
            width,
            height,
            walls: Seq::empty(),
            locations: Seq::empty(),
            loaded_recipe: None,
        }
    }

    /// This map with `w` appended to its walls.
    pub open spec fn with_wall(self, w: Wall) -> WorldMapView {
        WorldMapView { walls: self.walls.push(w), ..self }
    }

    /// This map with `l` appended to its locations.
    pub open spec fn with_location(self, l: LocationView) -> WorldMapView {
        WorldMapView { locations: self.locations.push(l), ..self }
    }

    /// This map with `r` as its loaded recipe, whatever was loaded before.
    pub open spec fn with_recipe(self, r: RecipeView) -> WorldMapView {
        WorldMapView { loaded_recipe: Some(r), ..self }
    }
}

impl PartialEq for Ingredient {
    fn eq(&self, other: &Ingredient) -> (r: bool) {
        self.name == other.name
    }
}

impl vstd::std_specs::cmp::PartialEqSpecImpl for Ingredient {
    open spec fn obeys_eq_spec() -> bool {
        true
    }

    open spec fn eq_spec(&self, other: &Ingredient) -> bool {
        self@ == other@
    }
}

impl Eq for Ingredient {}

/// Two lists of ingredients compare equal, element by element, exactly when
/// they hold the same names in the same order.
proof fn lemma_ingredients_eq(a: Vec<Ingredient>, b: Vec<Ingredient>)
    ensures
        a.eq_spec(&b) <==> ingredient_names(a@) == ingredient_names(b@),
{
    if ingredient_names(a@) == ingredient_names(b@) {
        assert(a.len() == ingredient_names(a@).len());
        assert forall|i: int| 0 <= i < a.len() implies a[i].eq_spec(&b[i]) by {
            assert(ingredient_names(a@)[i] == a@[i]@);
            assert(ingredient_names(b@)[i] == b@[i]@);
        }
    }
    if a.eq_spec(&b) {
        assert(ingredient_names(a@) =~= ingredient_names(b@));
    }
}

impl PartialEq for Menu {
    fn eq(&self, other: &Menu) -> (r: bool) {
        proof {
            lemma_ingredients_eq(self.ingredients, other.ingredients);
        }
        self.name == other.name && self.ingredients == other.ingredients
    }
}

impl vstd::std_specs::cmp::PartialEqSpecImpl for Menu {
    open spec fn obeys_eq_spec() -> bool {
        true
    }

    open spec fn eq_spec(&self, other: &Menu) -> bool {
        self@ == other@
    }
}

impl Eq for Menu {}

/// Two lists of menus compare equal, element by element, exactly when their
/// views agree in order.
proof fn lemma_menus_eq(a: Vec<Menu>, b: Vec<Menu>)
    ensures
        a.eq_spec(&b) <==> menu_views(a@) == menu_views(b@),
{
    if menu_views(a@) == menu_views(b@) {
        assert(a.len() == menu_views(a@).len());
        assert forall|i: int| 0 <= i < a.len() implies a[i].eq_spec(&b[i]) by {
            assert(menu_views(a@)[i] == a@[i]@);
            assert(menu_views(b@)[i] == b@[i]@);
        }
    }
    if a.eq_spec(&b) {
        assert(menu_views(a@) =~= menu_views(b@));
    }
}

impl PartialEq for Recipe {
    fn eq(&self, other: &Recipe) -> (r: bool) {
        proof {
            lemma_menus_eq(self.menus, other.menus);
        }
        self.name == other.name && self.menus == other.menus
    }
}

impl vstd::std_specs::cmp::PartialEqSpecImpl for Recipe {
    open spec fn obeys_eq_spec() -> bool {
        true
    }

    open spec fn eq_spec(&self, other: &Recipe) -> bool {
        self@ == other@
    }
}

impl Eq for Recipe {}

impl PartialEq for Location {
    fn eq(&self, other: &Location) -> (r: bool) {
        proof {
            lemma_ingredients_eq(self.ingredients, other.ingredients);
        }
        self.name == other.name && self.position == other.position && self.ingredients
            == other.ingredients
    }
}

impl vstd::std_specs::cmp::PartialEqSpecImpl for Location {
    open spec fn obeys_eq_spec() -> bool {
        true
    }

    open spec fn eq_spec(&self, other: &Location) -> bool {
        self@ == other@
    }
}

impl Eq for Location {}

/// Two lists of locations compare equal, element by element, exactly when
/// their views agree in order.
proof fn lemma_locations_eq(a: Vec<Location>, b: Vec<Location>)
    ensures
        a.eq_spec(&b) <==> location_views(a@) == location_views(b@),
{
    if location_views(a@) == location_views(b@) {
        assert(a.len() == location_views(a@).len());
        assert forall|i: int| 0 <= i < a.len() implies a[i].eq_spec(&b[i]) by {
            assert(location_views(a@)[i] == a@[i]@);
            assert(location_views(b@)[i] == b@[i]@);
        }
    }
    if a.eq_spec(&b) {
        assert(location_views(a@) =~= location_views(b@));
    }
}

/// Whether two lists of walls hold the same walls in the same order.
fn walls_eq(a: &Vec<Wall>, b: &Vec<Wall>) -> (r: bool)
    ensures
        r == (a@ == b@),
{
    if a.len() != b.len() {
        return false;
    }
    let mut i: usize = 0;
    while i < a.len()
        invariant
            a.len() == b.len(),
            0 <= i <= a.len(),
            forall|j: int| 0 <= j < i ==> a@[j] == b@[j],
        decreases a.len() - i,
    {
        if a[i] != b[i] {
            return false;
        }
        i = i + 1;
    }
    assert(a@ =~= b@);
    true
}

impl PartialEq for WorldMap {
    fn eq(&self, other: &WorldMap) -> (r: bool) {
        proof {
            lemma_locations_eq(self.locations, other.locations);
        }
        self.width == other.width && self.height == other.height && walls_eq(&self.walls, &other.walls)
            && self.locations == other.locations && self.loaded_recipe == other.loaded_recipe
    }
}

impl vstd::std_specs::cmp::PartialEqSpecImpl for WorldMap {
    open spec fn obeys_eq_spec() -> bool {
        true
    }

    open spec fn eq_spec(&self, other: &WorldMap) -> bool {
        self@ == other@
    }
}

impl Eq for WorldMap {}

impl Ingredient {
    /// Makes an ingredient with the given name.
    pub fn new(name: String) -> (r: Self)
        ensures
            r.name == name,
            r@ == name@,
    {
        Ingredient { name }
    }
}

impl Menu {
    /// Makes a menu that holds `name` and `ingredients` as given, in order.
    pub fn new(name: String, ingredients: Vec<Ingredient>) -> (r: Self)
        ensures
            r.name == name,
            r.ingredients == ingredients,
            r@ == (MenuView { name: name@, ingredients: ingredient_names(ingredients@) }),
    {
        Menu { name, ingredients }
    }
}

impl Recipe {
    /// Makes a recipe that holds `name` and `menus` as given, in order.
    pub fn new(name: String, menus: Vec<Menu>) -> (r: Self)
        ensures
            r.name == name,
            r.menus == menus,
            r@ == (RecipeView { name: name@, menus: menu_views(menus@) }),
    {
        Recipe { name, menus }
    }
}

impl Point {
    /// Makes the point `(x, y)`.
    pub fn new(x: u32, y: u32) -> (r: Self)
        ensures
            r == (Point { x, y }),
    {
        Point { x, y }
    }
}

impl Wall {
    /// Makes the wall from `start` to `end`.
    pub fn new(start: Point, end: Point) -> (r: Self)
        ensures
            r == (Wall { start, end }),
    {
        Wall { start, end }
    }
}

impl Location {
    /// Makes a location that holds its name, position and ingredients as given.
    pub fn new(name: String, position: Point, ingredients: Vec<Ingredient>) -> (r: Self)
        ensures
            r.name == name,
            r.position == position,
            r.ingredients == ingredients,
            r@ == (LocationView {
                name: name@,
                position,
                ingredients: ingredient_names(ingredients@),
            }),
    {
        Location { name, position, ingredients }
    }
}

impl WorldMap {
    /// Makes an empty map of the given size.
    pub fn new(width: u32, height: u32) -> (r: Self)
        ensures
            r@ == WorldMapView::empty(width as nat, height as nat),
    {
        WorldMap { width, height, walls: Vec::new(), locations: Vec::new(), loaded_recipe: None }
    }

    /// Appends `wall` to the map's walls; nothing else changes.
    pub fn add_wall(&mut self, wall: Wall)
        ensures
            final(self)@ == old(self)@.with_wall(wall),
    {
        self.walls.push(wall);
    }

    /// Appends `location` to the map's locations; nothing else changes.
    pub fn add_location(&mut self, location: Location)
        ensures
            final(self)@ == old(self)@.with_location(location@),
    {
        self.locations.push(location);
        proof {
            assert(location_views(self.locations@) =~= location_views(old(self).locations@).push(
                location@,
            ));
        }
    }

    /// Loads `recipe` on the map, replacing any recipe loaded before.
    pub fn load_recipe(&mut self, recipe: Recipe)
        ensures
            final(self)@ == old(self)@.with_recipe(recipe@),
    {
        self.loaded_recipe = Some(recipe);
    }
}

/// One append to a map: a wall or a location.
pub enum MapEdit {
    AddWall(Wall),
    AddLocation(LocationView),
}

impl WorldMapView {
    /// This map after `e`.
    pub open spec fn apply_edit(self, e: MapEdit) -> WorldMapView {
        match e {
            MapEdit::AddWall(w) => self.with_wall(w),
            MapEdit::AddLocation(l) => self.with_location(l),
        }
    }

    /// This map after each of `es`, first to last.
    pub open spec fn apply_edits(self, es: Seq<MapEdit>) -> WorldMapView
        decreases es.len(),
    {
        if es.len() == 0 {
            self
        } else {
            self.apply_edits(es.drop_last()).apply_edit(es.last())
        }
    }
}

/// The walls that `es` adds, in order.
pub open spec fn walls_added(es: Seq<MapEdit>) -> Seq<Wall>
    decreases es.len(),
{
    if es.len() == 0 {
        Seq::empty()
    } else {
        match es.last() {
            MapEdit::AddWall(w) => walls_added(es.drop_last()).push(w),
            MapEdit::AddLocation(_) => walls_added(es.drop_last()),
        }
    }
}

/// The locations that `es` adds, in order.
pub open spec fn locations_added(es: Seq<MapEdit>) -> Seq<LocationView>
    decreases es.len(),
{
    if es.len() == 0 {
        Seq::empty()
    } else {
        match es.last() {
            MapEdit::AddWall(_) => locations_added(es.drop_last()),
            MapEdit::AddLocation(l) => locations_added(es.drop_last()).push(l),
        }
    }
}

/// Walls and locations are only ever appended: after any sequence of
/// `add_wall` and `add_location` calls, the map's walls are the walls it had
/// followed by the added ones in call order, likewise its locations, with
/// nothing dropped, reordered or merged, and the rest of the map unchanged.
pub proof fn lemma_edits_append_in_order(m: WorldMapView, es: Seq<MapEdit>)
    ensures
        m.apply_edits(es).walls == m.walls + walls_added(es),
        m.apply_edits(es).locations == m.locations + locations_added(es),
        m.apply_edits(es).width == m.width,
        m.apply_edits(es).height == m.height,
        m.apply_edits(es).loaded_recipe == m.loaded_recipe,
    decreases es.len(),
{
    if es.len() == 0 {
        assert(m.walls + walls_added(es) =~= m.walls);
        assert(m.locations + locations_added(es) =~= m.locations);
    } else {
        lemma_edits_append_in_order(m, es.drop_last());
        assert(m.apply_edits(es).walls =~= m.walls + walls_added(es));
        assert(m.apply_edits(es).locations =~= m.locations + locations_added(es));
    }
}

/// Loading a second recipe replaces the first: the map then holds `r2`, as
/// if `r1` had never been loaded.
pub proof fn lemma_second_load_replaces(m: WorldMapView, r1: RecipeView, r2: RecipeView)
    ensures
        m.with_recipe(r1).with_recipe(r2) == m.with_recipe(r2),
        m.with_recipe(r1).with_recipe(r2).loaded_recipe == Some(r2),
{
}

/// Two ingredients with the same name compare equal.
pub proof fn lemma_same_name_ingredients_equal(a: Ingredient, b: Ingredient)
    requires
        a.name@ == b.name@,
    ensures
        a.eq_spec(&b),
{
}

/// Two menus with the same name and the same ingredient names in the same
/// order compare equal.
pub proof fn lemma_same_menus_equal(a: Menu, b: Menu)
    requires
        a.name@ == b.name@,
        ingredient_names(a.ingredients@) == ingredient_names(b.ingredients@),
    ensures
        a.eq_spec(&b),
{
}

} // verus!
