//! Construction of the scene for a level: the workspace with terrain,
//! baseplate, one part per block and the spawn location, then the service
//! containers the engine expects.

use crate::color::{decode_hex_color, hex_to_color3};
use crate::models::{Block, BlockView, DocumentView, SpaceJSON};
use crate::scene::{
    names_unique, ratio, scene_well_formed, uniform_color, whole2, whole3, Color3, Fraction, Instance, InstanceView,
    NodeView, PropertyValue, PropertyValueView, Scene, Vector2, Vector3,
};
use crate::text::{decimal, push_decimal};
use vstd::prelude::*;

verus! {

/// An instance of `class` with no properties.
pub open spec fn bare(class: Seq<char>) -> InstanceView {
    InstanceView { class_name: class, properties: seq![] }
}

/// The ground: a large flat part whose top face is at height 0.
pub open spec fn baseplate_view() -> InstanceView {
    InstanceView {
        class_name: "Part"@,
        properties: seq![
            ("Name"@, PropertyValueView::String("Baseplate"@)),
            ("CFrame"@, PropertyValueView::CFrame(whole3(0, -8, 0))),
            ("Size"@, PropertyValueView::Vector3(whole3(200, 16, 200))),
            ("Color"@, PropertyValueView::Color3(uniform_color(1, 2))),
            ("Anchored"@, PropertyValueView::Bool(true)),
            ("Locked"@, PropertyValueView::Bool(true)),
            ("Material"@, PropertyValueView::Int32(256)),
        ],
    }
}

/// The color a block is drawn in: its decoded color, each channel over 255,
/// or a neutral gray where its color text does not decode.
pub open spec fn block_color(color: Seq<char>) -> Color3 {
    match decode_hex_color(color) {
        Ok(c) => Color3 { r: ratio(c.r as int, 255), g: ratio(c.g as int, 255), b: ratio(c.b as int, 255) },
        Err(_) => uniform_color(1, 2),
    }
}

/// The part that stands for block `b`, the `index`-th of its document.
pub open spec fn block_part(b: BlockView, index: nat) -> InstanceView {
    InstanceView {
        class_name: "Part"@,
        properties: seq![
            ("Name"@, PropertyValueView::String("Block"@ + decimal(index))),
            ("CFrame"@, PropertyValueView::CFrame(whole3(b.x as int, b.y as int, b.z as int))),
            ("Size"@, PropertyValueView::Vector3(whole3(2, 2, 2))),
            ("Color"@, PropertyValueView::Color3(block_color(b.color))),
            ("Anchored"@, PropertyValueView::Bool(true)),
        ],
    }
}

/// The spawn location, at a fixed place near the origin.
pub open spec fn spawn_location_view() -> InstanceView {
    InstanceView {
        class_name: "SpawnLocation"@,
        properties: seq![
            ("Name"@, PropertyValueView::String("SpawnLocation"@)),
            ("Anchored"@, PropertyValueView::Bool(true)),
            ("CanCollide"@, PropertyValueView::Bool(true)),
            ("Neutral"@, PropertyValueView::Bool(true)),
            ("Duration"@, PropertyValueView::Float32(ratio(0, 1))),
            ("Size"@, PropertyValueView::Vector3(whole3(12, 1, 12))),
            ("CFrame"@, PropertyValueView::CFrame(Vector3 { x: ratio(0, 1), y: ratio(1, 2), z: ratio(0, 1) })),
            ("Enabled"@, PropertyValueView::Bool(true)),
            ("AllowTeamChangeOnTouch"@, PropertyValueView::Bool(false)),
        ],
    }
}

/// The decal painted on the top face of the spawn location.
pub open spec fn spawn_decal_view() -> InstanceView {
    InstanceView {
        class_name: "Decal"@,
        properties: seq![
            ("Color3"@, PropertyValueView::Color3(uniform_color(1, 1))),
            ("MetalnessMap"@, PropertyValueView::ContentNone),
            ("NormalMap"@, PropertyValueView::ContentNone),
            ("RoughnessMap"@, PropertyValueView::ContentNone),
            ("Texture"@, PropertyValueView::ContentUri("rbxasset://textures/SpawnLocation.png"@)),
            ("TexturePack"@, PropertyValueView::ContentNone),
            ("TexturePackMetadata"@, PropertyValueView::String(""@)),
            ("Transparency"@, PropertyValueView::Float32(ratio(0, 1))),
            ("UVOffset"@, PropertyValueView::Vector2(whole2(0, 0))),
            ("UVScale"@, PropertyValueView::Vector2(whole2(1, 1))),
            ("ZIndex"@, PropertyValueView::Int32(1)),
            ("Face"@, PropertyValueView::Int32(1)),
            ("Name"@, PropertyValueView::String("Decal"@)),
        ],
    }
}

/// The lighting service, set to the shadow-map technology (token 3).
pub open spec fn lighting_view() -> InstanceView {
    InstanceView {
        class_name: "Lighting"@,
        properties: seq![("Technology"@, PropertyValueView::Token(3))],
    }
}

fn whole(n: i32) -> (r: Fraction)
    ensures
        r == ratio(n as int, 1),
{
    Fraction { num: n, den: 1 }
}

fn baseplate() -> (r: Instance)
    ensures
        r@ == baseplate_view(),
        names_unique(r@.properties),
{
    let gray = Color3 { r: Fraction { num: 1, den: 2 }, g: Fraction { num: 1, den: 2 }, b: Fraction { num: 1, den: 2 } };
    let r = Instance::new("Part")
        .with_property("Name", PropertyValue::String(String::from_str("Baseplate")))
        .with_property("CFrame", PropertyValue::CFrame(Vector3 { x: whole(0), y: whole(-8), z: whole(0) }))
        .with_property("Size", PropertyValue::Vector3(Vector3 { x: whole(200), y: whole(16), z: whole(200) }))
        .with_property("Color", PropertyValue::Color3(gray))
        .with_property("Anchored", PropertyValue::Bool(true))
        .with_property("Locked", PropertyValue::Bool(true))
        .with_property("Material", PropertyValue::Int32(256));
    proof {
        reveal_strlit("Name");
        reveal_strlit("CFrame");
        reveal_strlit("Size");
        reveal_strlit("Color");
        reveal_strlit("Anchored");
        reveal_strlit("Locked");
        reveal_strlit("Material");
        assert(r@.properties =~= baseplate_view().properties);
        let props = r@.properties;
        assert forall|a: int, b: int| 0 <= a < b < props.len() implies (#[trigger] props[a]).0 != (
        #[trigger] props[b]).0 by {
            assert(props[a].0.len() != props[b].0.len() || props[a].0[0] != props[b].0[0]);
        }
    }
    r
}

/// The color a block is drawn in (see [`block_color`]).
fn color_of_block(color: &str) -> (r: Color3)
    ensures
        r == block_color(color@),
{
    match hex_to_color3(color) {
        Ok(c) => Color3 {
            r: Fraction { num: c.r as i32, den: 255 },
            g: Fraction { num: c.g as i32, den: 255 },
            b: Fraction { num: c.b as i32, den: 255 },
        },
        Err(_) => Color3 {
            r: Fraction { num: 1, den: 2 },
            g: Fraction { num: 1, den: 2 },
            b: Fraction { num: 1, den: 2 },
        },
    }
}

/// Creates the part that stands for `block`, the `index`-th block of its
/// document: a cube of side 2 named after its index, placed at the block's
/// coordinates, anchored, in the block's color (gray where that does not decode).
pub fn create_part_from_block(block: &Block, index: usize) -> (r: Instance)
    ensures
        r@ == block_part(block@, index as nat),
        names_unique(r@.properties),
{
    let mut name = String::from_str("Block");
    push_decimal(&mut name, index as u64);
    let r = Instance::new("Part")
        .with_property("Name", PropertyValue::String(name))
        .with_property("CFrame", PropertyValue::CFrame(Vector3 { x: whole(block.x), y: whole(block.y), z: whole(block.z) }))
        .with_property("Size", PropertyValue::Vector3(Vector3 { x: whole(2), y: whole(2), z: whole(2) }))
        .with_property("Color", PropertyValue::Color3(color_of_block(block.color.as_str())))
        .with_property("Anchored", PropertyValue::Bool(true));
    proof {
        reveal_strlit("Name");
        reveal_strlit("CFrame");
        reveal_strlit("Size");
        reveal_strlit("Color");
        reveal_strlit("Anchored");
        assert(r@.properties =~= block_part(block@, index as nat).properties);
        let props = r@.properties;
        assert forall|a: int, b: int| 0 <= a < b < props.len() implies (#[trigger] props[a]).0 != (
        #[trigger] props[b]).0 by {
            assert(props[a].0.len() != props[b].0.len() || props[a].0[0] != props[b].0[0]);
        }
    }
    r
}

fn spawn_location() -> (r: Instance)
    ensures
        r@ == spawn_location_view(),
        names_unique(r@.properties),
{
    let r = Instance::new("SpawnLocation")
        .with_property("Name", PropertyValue::String(String::from_str("SpawnLocation")))
        .with_property("Anchored", PropertyValue::Bool(true))
        .with_property("CanCollide", PropertyValue::Bool(true))
        .with_property("Neutral", PropertyValue::Bool(true))
        .with_property("Duration", PropertyValue::Float32(whole(0)))
        .with_property("Size", PropertyValue::Vector3(Vector3 { x: whole(12), y: whole(1), z: whole(12) }))
        .with_property("CFrame", PropertyValue::CFrame(Vector3 { x: whole(0), y: Fraction { num: 1, den: 2 }, z: whole(0) }))
        .with_property("Enabled", PropertyValue::Bool(true))
        .with_property("AllowTeamChangeOnTouch", PropertyValue::Bool(false));
    proof {
        reveal_strlit("Name");
        reveal_strlit("Anchored");
        reveal_strlit("CanCollide");
        reveal_strlit("Neutral");
        reveal_strlit("Duration");
        reveal_strlit("Size");
        reveal_strlit("CFrame");
        reveal_strlit("Enabled");
        reveal_strlit("AllowTeamChangeOnTouch");
        assert(r@.properties =~= spawn_location_view().properties);
        let props = r@.properties;
        assert forall|a: int, b: int| 0 <= a < b < props.len() implies (#[trigger] props[a]).0 != (
        #[trigger] props[b]).0 by {
            assert(props[a].0.len() != props[b].0.len() || props[a].0[0] != props[b].0[0]);
        }
    }
    r
}

fn spawn_decal() -> (r: Instance)
    ensures
        r@ == spawn_decal_view(),
        names_unique(r@.properties),
{
    let white = Color3 { r: whole(1), g: whole(1), b: whole(1) };
    let r = Instance::new("Decal")
        .with_property("Color3", PropertyValue::Color3(white))
        .with_property("MetalnessMap", PropertyValue::ContentNone)
        .with_property("NormalMap", PropertyValue::ContentNone)
        .with_property("RoughnessMap", PropertyValue::ContentNone)
        .with_property("Texture", PropertyValue::ContentUri(String::from_str("rbxasset://textures/SpawnLocation.png")))
        .with_property("TexturePack", PropertyValue::ContentNone)
        .with_property("TexturePackMetadata", PropertyValue::String(String::from_str("")))
        .with_property("Transparency", PropertyValue::Float32(whole(0)))
        .with_property("UVOffset", PropertyValue::Vector2(Vector2 { x: whole(0), y: whole(0) }))
        .with_property("UVScale", PropertyValue::Vector2(Vector2 { x: whole(1), y: whole(1) }))
        .with_property("ZIndex", PropertyValue::Int32(1))
        .with_property("Face", PropertyValue::Int32(1))
        .with_property("Name", PropertyValue::String(String::from_str("Decal")));
    proof {
        reveal_strlit("Color3");
        reveal_strlit("MetalnessMap");
        reveal_strlit("NormalMap");
        reveal_strlit("RoughnessMap");
        reveal_strlit("Texture");
        reveal_strlit("TexturePack");
        reveal_strlit("TexturePackMetadata");
        reveal_strlit("Transparency");
        reveal_strlit("UVOffset");
        reveal_strlit("UVScale");
        reveal_strlit("ZIndex");
        reveal_strlit("Face");
        reveal_strlit("Name");
        assert(r@.properties =~= spawn_decal_view().properties);
        let props = r@.properties;
        assert forall|a: int, b: int| 0 <= a < b < props.len() implies (#[trigger] props[a]).0 != (
        #[trigger] props[b]).0 by {
            assert(props[a].0.len() != props[b].0.len() || props[a].0[0] != props[b].0[0]);
        }
    }
    r
}

fn lighting() -> (r: Instance)
    ensures
        r@ == lighting_view(),
        names_unique(r@.properties),
{
    let r = Instance::new("Lighting").with_property("Technology", PropertyValue::Token(3));
    assert(r@.properties =~= lighting_view().properties);
    r
}

/// The instances before the parts: the root, the workspace, its terrain and
/// the baseplate.
pub open spec fn scene_head() -> Seq<NodeView> {
    seq![
        NodeView { instance: bare("DataModel"@), parent: None },
        NodeView { instance: bare("Workspace"@), parent: Some(0usize) },
        NodeView { instance: bare("Terrain"@), parent: Some(1usize) },
        NodeView { instance: baseplate_view(), parent: Some(1usize) },
    ]
}

/// One part per block, in the order of the blocks, all in the workspace.
pub open spec fn block_nodes(bs: Seq<BlockView>) -> Seq<NodeView> {
    Seq::new(bs.len(), |i: int| NodeView { instance: block_part(bs[i], i as nat), parent: Some(1usize) })
}

/// The instances after the `n` parts: the spawn location with its decal in the
/// workspace, then the service containers under the root.
pub open spec fn scene_tail(n: nat) -> Seq<NodeView> {
    let spawn = (4 + n) as usize;
    let starter_player = (11 + n) as usize;
    seq![
        NodeView { instance: spawn_location_view(), parent: Some(1usize) },
        NodeView { instance: spawn_decal_view(), parent: Some(spawn) },
        NodeView { instance: bare("Players"@), parent: Some(0usize) },
        NodeView { instance: lighting_view(), parent: Some(0usize) },
        NodeView { instance: bare("ReplicatedStorage"@), parent: Some(0usize) },
        NodeView { instance: bare("StarterGui"@), parent: Some(0usize) },
        NodeView { instance: bare("StarterPack"@), parent: Some(0usize) },
        NodeView { instance: bare("StarterPlayer"@), parent: Some(0usize) },
        NodeView { instance: bare("StarterPlayerScripts"@), parent: Some(starter_player) },
        NodeView { instance: bare("StarterCharacterScripts"@), parent: Some(starter_player) },
    ]
}

/// The scene built for a document, instance by instance in insertion order.
pub open spec fn scene_model(d: DocumentView) -> Seq<NodeView> {
    scene_head() + block_nodes(d.blocks) + scene_tail(d.blocks.len())
}

/// Builds the scene for a document. The document is not validated here; a
/// block whose color does not decode is drawn gray.
pub fn build_scene(space_json: &SpaceJSON) -> (r: Scene)
    requires
        space_json.blocks@.len() + 14 <= usize::MAX,
    ensures
        r@ == scene_model(space_json@),
        scene_well_formed(r@),
{
    let ghost bs = space_json@.blocks;
    let mut scene = Scene::new(Instance::new("DataModel"));
    let workspace = scene.insert(0, Instance::new("Workspace"));
    scene.insert(workspace, Instance::new("Terrain"));
    scene.insert(workspace, baseplate());
    assert(scene@ =~= scene_head() + block_nodes(bs).take(0));
    let mut index: usize = 0;
    while index < space_json.blocks.len()
        invariant
            index <= bs.len(),
            bs == space_json@.blocks,
            bs.len() == space_json.blocks@.len(),
            workspace == 1,
            scene_well_formed(scene@),
            scene@ == scene_head() + block_nodes(bs).take(index as int),
        decreases bs.len() - index,
    {
        let part = create_part_from_block(&space_json.blocks[index], index);
        scene.insert(workspace, part);
        assert(scene@ =~= scene_head() + block_nodes(bs).take(index + 1));
        index = index + 1;
    }
    assert(block_nodes(bs).take(bs.len() as int) =~= block_nodes(bs));
    let spawn = scene.insert(workspace, spawn_location());
    scene.insert(spawn, spawn_decal());
    scene.insert(0, Instance::new("Players"));
    scene.insert(0, lighting());
    scene.insert(0, Instance::new("ReplicatedStorage"));
    scene.insert(0, Instance::new("StarterGui"));
    scene.insert(0, Instance::new("StarterPack"));
    let starter_player = scene.insert(0, Instance::new("StarterPlayer"));
    scene.insert(starter_player, Instance::new("StarterPlayerScripts"));
    scene.insert(starter_player, Instance::new("StarterCharacterScripts"));
    assert(scene@ =~= scene_model(space_json@));
    scene
}

/// How many instances of `class` the sequence holds.
pub open spec fn count_class(nodes: Seq<NodeView>, class: Seq<char>) -> nat
    decreases nodes.len(),
{
    if nodes.len() == 0 {
        0
    } else {
        count_class(nodes.drop_last(), class) + if nodes.last().instance.class_name == class {
            1nat
        } else {
            0nat
        }
    }
}

proof fn lemma_count_concat(a: Seq<NodeView>, b: Seq<NodeView>, class: Seq<char>)
    ensures
        count_class(a + b, class) == count_class(a, class) + count_class(b, class),
    decreases b.len(),
{
    if b.len() == 0 {
        assert(a + b =~= a);
    } else {
        assert((a + b).drop_last() =~= a + b.drop_last());
        lemma_count_concat(a, b.drop_last(), class);
    }
}

proof fn lemma_count_uniform(nodes: Seq<NodeView>, class: Seq<char>, all: bool)
    requires
        forall|i: int| 0 <= i < nodes.len() ==> ((#[trigger] nodes[i]).instance.class_name == class) == all,
    ensures
        count_class(nodes, class) == if all {
            nodes.len()
        } else {
            0
        },
    decreases nodes.len(),
{
    if nodes.len() > 0 {
        lemma_count_uniform(nodes.drop_last(), class, all);
    }
}

/// Every scene holds exactly one part more than its document has blocks (the
/// baseplate besides one part per block), and exactly one spawn location.
pub proof fn lemma_part_count(d: DocumentView)
    ensures
        count_class(scene_model(d), "Part"@) == d.blocks.len() + 1,
        count_class(scene_model(d), "SpawnLocation"@) == 1,
{
    reveal_strlit("Part");
    reveal_strlit("SpawnLocation");
    reveal_strlit("DataModel");
    reveal_strlit("Workspace");
    reveal_strlit("Terrain");
    reveal_strlit("Decal");
    reveal_strlit("Players");
    reveal_strlit("Lighting");
    reveal_strlit("ReplicatedStorage");
    reveal_strlit("StarterGui");
    reveal_strlit("StarterPack");
    reveal_strlit("StarterPlayer");
    reveal_strlit("StarterPlayerScripts");
    reveal_strlit("StarterCharacterScripts");
    let head = scene_head();
    let parts = block_nodes(d.blocks);
    let tail = scene_tail(d.blocks.len());
    lemma_count_concat(head + parts, tail, "Part"@);
    lemma_count_concat(head, parts, "Part"@);
    lemma_count_concat(head + parts, tail, "SpawnLocation"@);
    lemma_count_concat(head, parts, "SpawnLocation"@);
    let h3 = head.drop_last();
    assert forall|i: int| 0 <= i < h3.len() implies (#[trigger] h3[i]).instance.class_name != "Part"@ by {
        assert(h3[i].instance.class_name.len() != 4);
    }
    assert forall|i: int| 0 <= i < head.len() implies (#[trigger] head[i]).instance.class_name
        != "SpawnLocation"@ by {
        assert(head[i].instance.class_name.len() != 13);
    }
    assert forall|i: int| 0 <= i < tail.len() implies (#[trigger] tail[i]).instance.class_name != "Part"@ by {
        assert(tail[i].instance.class_name.len() != 4);
    }
    let rest = tail.drop_first();
    assert forall|i: int| 0 <= i < rest.len() implies (#[trigger] rest[i]).instance.class_name
        != "SpawnLocation"@ by {
        assert(rest[i].instance.class_name.len() != 13 || rest[i].instance.class_name[1] != 'p');
    }
    lemma_count_uniform(head.drop_last(), "Part"@, false);
    lemma_count_uniform(head, "SpawnLocation"@, false);
    lemma_count_uniform(parts, "Part"@, true);
    lemma_count_uniform(parts, "SpawnLocation"@, false);
    lemma_count_uniform(tail, "Part"@, false);
    lemma_count_uniform(tail.drop_first(), "SpawnLocation"@, false);
    lemma_count_concat(seq![tail[0]], tail.drop_first(), "SpawnLocation"@);
    assert(seq![tail[0]] + tail.drop_first() =~= tail);
    assert(seq![tail[0]].drop_last() =~= Seq::<NodeView>::empty());
    assert(count_class(Seq::<NodeView>::empty(), "SpawnLocation"@) == 0);
    assert(count_class(seq![tail[0]], "SpawnLocation"@) == 1);
}

/// The scene depends on the blocks of the document alone: two documents with
/// the same blocks, in particular two copies of one document, give the same
/// scene, instance for instance.
pub proof fn lemma_scene_determined_by_blocks(a: DocumentView, b: DocumentView)
    requires
        a.blocks == b.blocks,
    ensures
        scene_model(a) == scene_model(b),
{
}

} // verus!
