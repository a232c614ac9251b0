//! Level documents: a schema version, an optional name and a list of blocks.

use vstd::prelude::*;

verus! {

/// A level document as the frontend submits it.
#[derive(Debug)]
pub struct SpaceJSON {
    pub schema_version: u32,
    pub name: Option<String>,
    pub blocks: Vec<Block>,
}

/// A single voxel block: integer coordinates in engine distance units and a
/// hex color in `#RRGGBB` or `#RGB` form.
#[derive(Debug, Clone)]
pub struct Block {
    pub x: i32,
    pub y: i32,
    pub z: i32,
    pub color: String,
}

/// The mathematical content of a [`Block`].
pub struct BlockView {
    pub x: i32,
    pub y: i32,
    pub z: i32,
    pub color: Seq<char>,
}

/// The mathematical content of a [`SpaceJSON`] document.
pub struct DocumentView {
    pub schema_version: u32,
    pub name: Option<Seq<char>>,
    pub blocks: Seq<BlockView>,
}

impl View for Block {
    type V = BlockView;

    open spec fn view(&self) -> BlockView {
        BlockView { x: self.x, y: self.y, z: self.z, color: self.color@ }
    }
}

/// The views of a sequence of blocks.
pub open spec fn block_views(blocks: Seq<Block>) -> Seq<BlockView> {
    blocks.map_values(|b: Block| b@)
}

impl View for SpaceJSON {
    type V = DocumentView;

    open spec fn view(&self) -> DocumentView {
        DocumentView {
            schema_version: self.schema_version,
            name: match self.name {
                Some(n) => Some(n@),
                None => None,
            },
            blocks: block_views(self.blocks@),
        }
    }
}

} // verus!
