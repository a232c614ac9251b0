//! The engine scene graph: instances with a class name and typed properties,
//! held in insertion order with a link from each instance to its parent.
//!
//! Numbers that the engine stores as 32-bit floats are kept here as exact
//! fractions; the serializer turns each into the float `num / den`.

use vstd::prelude::*;

verus! {

/// The exact number `num / den`.
#[derive(Clone, Copy, Debug, PartialEq, Eq, Structural)]
pub struct Fraction {
    pub num: i32,
    pub den: u32,
}

/// The fraction `num / den` of two integers in range.
pub open spec fn ratio(num: int, den: int) -> Fraction {
    Fraction { num: num as i32, den: den as u32 }
}

#[derive(Clone, Copy, Debug, PartialEq, Eq, Structural)]
pub struct Vector3 {
    pub x: Fraction,
    pub y: Fraction,
    pub z: Fraction,
}

#[derive(Clone, Copy, Debug, PartialEq, Eq, Structural)]
pub struct Vector2 {
    pub x: Fraction,
    pub y: Fraction,
}

/// A color with channels in `[0, 1]`.
#[derive(Clone, Copy, Debug, PartialEq, Eq, Structural)]
pub struct Color3 {
    pub r: Fraction,
    pub g: Fraction,
    pub b: Fraction,
}

/// A vector of three integers.
pub open spec fn whole3(x: int, y: int, z: int) -> Vector3 {
    Vector3 { x: ratio(x, 1), y: ratio(y, 1), z: ratio(z, 1) }
}

/// A vector of two integers.
pub open spec fn whole2(x: int, y: int) -> Vector2 {
    Vector2 { x: ratio(x, 1), y: ratio(y, 1) }
}

/// A color whose three channels are `c / d`.
pub open spec fn uniform_color(c: int, d: int) -> Color3 {
    Color3 { r: ratio(c, d), g: ratio(c, d), b: ratio(c, d) }
}

/// The value of a property.
#[derive(Clone, Debug)]
pub enum PropertyValue {
    String(String),
    Bool(bool),
    Float32(Fraction),
    Int32(i32),
    /// An enumerated value, written with its own markup rather than as an integer.
    Token(u32),
    Vector3(Vector3),
    Vector2(Vector2),
    Color3(Color3),
    /// A transform: this position with the identity orientation.
    CFrame(Vector3),
    /// A content reference to an asset by URI.
    ContentUri(String),
    /// A content reference that refers to nothing.
    ContentNone,
}

/// The mathematical content of a [`PropertyValue`].
pub enum PropertyValueView {
    String(Seq<char>),
    Bool(bool),
    Float32(Fraction),
    Int32(i32),
    Token(u32),
    Vector3(Vector3),
    Vector2(Vector2),
    Color3(Color3),
    CFrame(Vector3),
    ContentUri(Seq<char>),
    ContentNone,
}

impl View for PropertyValue {
    type V = PropertyValueView;

    open spec fn view(&self) -> PropertyValueView {
        match self {
            PropertyValue::String(s) => PropertyValueView::String(s@),
            PropertyValue::Bool(b) => PropertyValueView::Bool(*b),
            PropertyValue::Float32(f) => PropertyValueView::Float32(*f),
            PropertyValue::Int32(i) => PropertyValueView::Int32(*i),
            PropertyValue::Token(t) => PropertyValueView::Token(*t),
            PropertyValue::Vector3(v) => PropertyValueView::Vector3(*v),
            PropertyValue::Vector2(v) => PropertyValueView::Vector2(*v),
            PropertyValue::Color3(c) => PropertyValueView::Color3(*c),
            PropertyValue::CFrame(p) => PropertyValueView::CFrame(*p),
            PropertyValue::ContentUri(u) => PropertyValueView::ContentUri(u@),
            PropertyValue::ContentNone => PropertyValueView::ContentNone,
        }
    }
}

/// A named property of an instance.
#[derive(Clone, Debug)]
pub struct Property {
    pub name: String,
    pub value: PropertyValue,
}

impl View for Property {
    type V = (Seq<char>, PropertyValueView);

    open spec fn view(&self) -> (Seq<char>, PropertyValueView) {
        (self.name@, self.value@)
    }
}

/// One instance of the scene: its class and its properties in the order given.
#[derive(Clone, Debug)]
pub struct Instance {
    pub class_name: String,
    pub properties: Vec<Property>,
}

/// The mathematical content of an [`Instance`].
pub struct InstanceView {
    pub class_name: Seq<char>,
    pub properties: Seq<(Seq<char>, PropertyValueView)>,
}

impl View for Instance {
    type V = InstanceView;

    open spec fn view(&self) -> InstanceView {
        InstanceView {
            class_name: self.class_name@,
            properties: self.properties@.map_values(|p: Property| p@),
        }
    }
}

/// No two properties share a name.
pub open spec fn names_unique(props: Seq<(Seq<char>, PropertyValueView)>) -> bool {
    forall|a: int, b: int| 0 <= a < b < props.len() ==> (#[trigger] props[a]).0 != (#[trigger] props[b]).0
}

impl Instance {
    /// An instance of the given class with no properties.
    pub fn new(class_name: &str) -> (r: Instance)
        ensures
            r@ == (InstanceView { class_name: class_name@, properties: seq![] }),
    {
        let r = Instance { class_name: String::from_str(class_name), properties: Vec::new() };
        assert(r@.properties =~= seq![]);
        r
    }

    /// The instance with one more property, after the others.
    pub fn with_property(self, name: &str, value: PropertyValue) -> (r: Instance)
        ensures
            r@ == (InstanceView {
                class_name: self@.class_name,
                properties: self@.properties.push((name@, value@)),
            }),
    {
        let Instance { class_name, mut properties } = self;
        properties.push(Property { name: String::from_str(name), value });
        let r = Instance { class_name, properties };
        assert(r@.properties =~= self@.properties.push((name@, value@)));
        r
    }
}

/// An instance of the scene with the index of its parent (none for the root).
pub struct NodeView {
    pub instance: InstanceView,
    pub parent: Option<usize>,
}

/// The shape every scene keeps: a root first, each other instance after its
/// parent, and unique property names in every instance.
pub open spec fn scene_well_formed(nodes: Seq<NodeView>) -> bool {
    &&& nodes.len() > 0
    &&& nodes[0].parent is None
    &&& forall|i: int|
        0 < i < nodes.len() ==> ((#[trigger] nodes[i]).parent matches Some(p) && p < i)
    &&& forall|i: int| 0 <= i < nodes.len() ==> names_unique((#[trigger] nodes[i]).instance.properties)
}

struct SceneNode {
    instance: Instance,
    parent: Option<usize>,
}

/// A tree of instances, kept well formed by [`scene_well_formed`]. Instances
/// are numbered in insertion order from the root, 0; the children of an
/// instance are the instances whose parent it is, in the order of their numbers.
pub struct Scene {
    nodes: Vec<SceneNode>,
}

impl View for Scene {
    type V = Seq<NodeView>;

    closed spec fn view(&self) -> Seq<NodeView> {
        self.nodes@.map_values(|n: SceneNode| NodeView { instance: n.instance@, parent: n.parent })
    }
}

impl Scene {
    /// A scene that holds only its root.
    pub fn new(root: Instance) -> (r: Scene)
        requires
            names_unique(root@.properties),
        ensures
            r@ == seq![NodeView { instance: root@, parent: None }],
            scene_well_formed(r@),
    {
        let mut nodes: Vec<SceneNode> = Vec::new();
        nodes.push(SceneNode { instance: root, parent: None });
        let r = Scene { nodes };
        assert(r@ =~= seq![NodeView { instance: root@, parent: None }]);
        r
    }

    /// Adds `instance` as the last child of `parent` and returns its number.
    pub fn insert(&mut self, parent: usize, instance: Instance) -> (id: usize)
        requires
            scene_well_formed(old(self)@),
            parent < old(self)@.len(),
            names_unique(instance@.properties),
        ensures
            id == old(self)@.len(),
            final(self)@ == old(self)@.push(NodeView { instance: instance@, parent: Some(parent) }),
            scene_well_formed(final(self)@),
    {
        let ghost before = self@;
        let ghost added = NodeView { instance: instance@, parent: Some(parent) };
        let id = self.nodes.len();
        self.nodes.push(SceneNode { instance, parent: Some(parent) });
        assert(self@ =~= before.push(added));
        id
    }

    /// The number of instances.
    pub fn len(&self) -> (r: usize)
        ensures
            r == self@.len(),
    {
        self.nodes.len()
    }

    /// The instance numbered `id`.
    pub fn instance(&self, id: usize) -> (r: &Instance)
        requires
            id < self@.len(),
        ensures
            r@ == self@[id as int].instance,
    {
        &self.nodes[id].instance
    }

    /// The number of the parent of instance `id`, or `None` for the root.
    pub fn parent(&self, id: usize) -> (r: Option<usize>)
        requires
            id < self@.len(),
        ensures
            r == self@[id as int].parent,
    {
        self.nodes[id].parent
    }
}

} // verus!
