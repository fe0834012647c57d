//! Data model of a small cooking game world: ingredients, menus and recipes,
//! and a map made of walls and locations that can hold one loaded recipe.

pub mod message;
pub mod world;

pub use message::{greet, simulate_movement};
pub use world::{Ingredient, Location, Menu, Point, Recipe, Wall, WorldMap};
