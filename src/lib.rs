//! Level export core: validation of level documents, hex color decoding and
//! construction of the engine scene graph for a level.

pub mod builder;
pub mod color;
pub mod export;
pub mod models;
pub mod scene;
pub mod text;
pub mod validation;
