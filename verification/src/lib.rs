//! Decision logic of the Spotorno wildfire game, verified.
pub mod text;
pub mod graph;
pub mod undo;
pub mod live;
pub mod model;
pub mod changes;
pub mod recall;
pub mod inspect;
pub mod camera;
pub mod ignition;
pub mod orders;
pub mod fire_layer;
pub mod api;
pub mod request;
pub mod summary;
pub mod dossier;
pub mod composer;
pub mod bench;
pub mod browser;
pub mod buildings;
pub mod interview;
pub mod capture;
pub mod shortcuts;
