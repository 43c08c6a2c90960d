//! How a layer-shell surface is asked for: its namespace, size, anchors,
//! margins, exclusive zone, keyboard interactivity, layer and exclusive edge,
//! and the requests that set them up on a new layer surface.
use vstd::prelude::*;

verus! {

/// Bit of the top edge in an anchor set.
pub const ANCHOR_TOP: u32 = 1;

/// Bit of the bottom edge in an anchor set.
pub const ANCHOR_BOTTOM: u32 = 2;

/// Bit of the left edge in an anchor set.
pub const ANCHOR_LEFT: u32 = 4;

/// Bit of the right edge in an anchor set.
pub const ANCHOR_RIGHT: u32 = 8;

/// A set of edges of the output that a layer surface is anchored to, one bit
/// each.
#[derive(Debug, Clone, Copy, PartialEq, Eq, Structural)]
pub struct Anchor {
    pub bits: u32,
}

impl Anchor {
    pub fn from_bits(bits: u32) -> (a: Anchor)
        ensures
            a.bits == bits,
    {
        Anchor { bits }
    }
}

/// The layer a surface is stacked in, from the bottom up.
#[derive(Debug, Clone, Copy, PartialEq, Eq, Structural)]
pub enum Layer {
    Background,
    Bottom,
    Top,
    Overlay,
}

/// Whether, and how, a layer surface takes keyboard focus.
#[derive(Debug, Clone, Copy, PartialEq, Eq, Structural)]
pub enum KeyboardInteractivity {
    /// The surface never takes keyboard focus.
    Disabled,
    /// The surface takes all keyboard input while it is mapped.
    Exclusive,
    /// The surface takes keyboard focus when the user gives it.
    OnDemand,
}

/// A request that sets up a property of a new layer surface.
#[derive(Debug, Clone, Copy, PartialEq, Eq, Structural)]
pub enum LayerSurfaceRequest {
    SetAnchor(Anchor),
    SetSize(u32, u32),
    SetExclusiveZone(i32),
    /// Top, right, bottom, left.
    SetMargin(i32, i32, i32, i32),
    SetKeyboardInteractivity(KeyboardInteractivity),
    SetExclusiveEdge(Anchor),
}

/// The layer-shell side of a window: what the compositor is asked for.
#[derive(Debug, Clone)]
pub struct LayerSurfaceConfig {
    pub namespace: String,
    pub width: u32,
    pub height: u32,
    pub anchors: Vec<Anchor>,
    pub margin: Option<(i32, i32, i32, i32)>,
    pub exclusive_zone: Option<i32>,
    pub keyboard_interactivity: Option<KeyboardInteractivity>,
    pub layer: Layer,
    pub exclusive_edge: Option<Anchor>,
}

/// The requests for an optional property: one if it is set, none if not.
pub open spec fn optional_request<T>(value: Option<T>, request: spec_fn(T) -> LayerSurfaceRequest) -> Seq<LayerSurfaceRequest> {
    match value {
        Some(v) => seq![request(v)],
        None => Seq::empty(),
    }
}

impl LayerSurfaceConfig {
    /// The requests that set up a new layer surface, in the order they are
    /// sent: one anchor request for each anchor in the order they were added,
    /// the size, then the exclusive zone, the margins, the keyboard
    /// interactivity and the exclusive edge, each where it is set.
    pub open spec fn requests(&self) -> Seq<LayerSurfaceRequest> {
        self.anchors@.map_values(|a: Anchor| LayerSurfaceRequest::SetAnchor(a)) + seq![
            LayerSurfaceRequest::SetSize(self.width, self.height),
        ] + optional_request(self.exclusive_zone, |z: i32| LayerSurfaceRequest::SetExclusiveZone(z))
            + optional_request(
            self.margin,
            |m: (i32, i32, i32, i32)| LayerSurfaceRequest::SetMargin(m.0, m.1, m.2, m.3),
        ) + optional_request(
            self.keyboard_interactivity,
            |k: KeyboardInteractivity| LayerSurfaceRequest::SetKeyboardInteractivity(k),
        ) + optional_request(self.exclusive_edge, |e: Anchor| LayerSurfaceRequest::SetExclusiveEdge(e))
    }

    /// An empty namespace, a zero size, no anchors, margins, exclusive zone,
    /// keyboard interactivity or exclusive edge, on the top layer.
    pub fn new() -> (c: Self)
        ensures
            c.namespace@ == Seq::<char>::empty(),
            c.width == 0,
            c.height == 0,
            c.anchors@ == Seq::<Anchor>::empty(),
            c.margin is None,
            c.exclusive_zone is None,
            c.keyboard_interactivity is None,
            c.layer == Layer::Top,
            c.exclusive_edge is None,
    {
        LayerSurfaceConfig {
            namespace: String::new(),
            width: 0,
            height: 0,
            anchors: Vec::new(),
            margin: None,
            exclusive_zone: None,
            keyboard_interactivity: None,
            layer: Layer::Top,
            exclusive_edge: None,
        }
    }

    pub fn set_width(self, width: u32) -> (c: Self)
        ensures
            c == (LayerSurfaceConfig { width, ..self }),
    {
        let mut c = self;
        c.width = width;
        c
    }

    pub fn set_height(self, height: u32) -> (c: Self)
        ensures
            c == (LayerSurfaceConfig { height, ..self }),
    {
        let mut c = self;
        c.height = height;
        c
    }

    /// Adds an anchor after those already set.
    pub fn set_anchor(self, anchor: Anchor) -> (c: Self)
        ensures
            c.anchors@ == self.anchors@.push(anchor),
            c.namespace == self.namespace,
            c.width == self.width,
            c.height == self.height,
            c.margin == self.margin,
            c.exclusive_zone == self.exclusive_zone,
            c.keyboard_interactivity == self.keyboard_interactivity,
            c.layer == self.layer,
            c.exclusive_edge == self.exclusive_edge,
    {
        let mut c = self;
        c.anchors.push(anchor);
        c
    }

    /// Adds anchors, in order, after those already set.
    pub fn set_anchors(self, anchors: Vec<Anchor>) -> (c: Self)
        ensures
            c.anchors@ == self.anchors@ + anchors@,
            c.namespace == self.namespace,
            c.width == self.width,
            c.height == self.height,
            c.margin == self.margin,
            c.exclusive_zone == self.exclusive_zone,
            c.keyboard_interactivity == self.keyboard_interactivity,
            c.layer == self.layer,
            c.exclusive_edge == self.exclusive_edge,
    {
        let mut c = self;
        let mut added = anchors;
        c.anchors.append(&mut added);
        c
    }

    pub fn set_margin(self, top: i32, right: i32, bottom: i32, left: i32) -> (c: Self)
        ensures
            c == (LayerSurfaceConfig { margin: Some((top, right, bottom, left)), ..self }),
    {
        let mut c = self;
        c.margin = Some((top, right, bottom, left));
        c
    }

    pub fn set_exclusive_zone(self, zone: i32) -> (c: Self)
        ensures
            c == (LayerSurfaceConfig { exclusive_zone: Some(zone), ..self }),
    {
        let mut c = self;
        c.exclusive_zone = Some(zone);
        c
    }

    pub fn set_keyboard_interactivity(self, keyboard_interactivity: KeyboardInteractivity) -> (c:
        Self)
        ensures
            c == (LayerSurfaceConfig {
                keyboard_interactivity: Some(keyboard_interactivity),
                ..self
            }),
    {
        let mut c = self;
        c.keyboard_interactivity = Some(keyboard_interactivity);
        c
    }

    pub fn set_layer(self, layer: Layer) -> (c: Self)
        ensures
            c == (LayerSurfaceConfig { layer, ..self }),
    {
        let mut c = self;
        c.layer = layer;
        c
    }

    pub fn set_exclusive_edge(self, edge: Anchor) -> (c: Self)
        ensures
            c == (LayerSurfaceConfig { exclusive_edge: Some(edge), ..self }),
    {
        let mut c = self;
        c.exclusive_edge = Some(edge);
        c
    }

    pub fn set_namespace(self, namespace: &str) -> (c: Self)
        ensures
            c.namespace@ == namespace@,
            c.width == self.width,
            c.height == self.height,
            c.anchors == self.anchors,
            c.margin == self.margin,
            c.exclusive_zone == self.exclusive_zone,
            c.keyboard_interactivity == self.keyboard_interactivity,
            c.layer == self.layer,
            c.exclusive_edge == self.exclusive_edge,
    {
        let mut c = self;
        c.namespace = namespace.to_owned();
        c
    }

    /// The requests that set up a new layer surface with this configuration.
    pub fn layer_surface_requests(&self) -> (r: Vec<LayerSurfaceRequest>)
        ensures
            r@ == self.requests(),
    {
        let mut r: Vec<LayerSurfaceRequest> = Vec::new();
        let n = self.anchors.len();
        for i in 0..n
            invariant
                n == self.anchors@.len(),
                r@ == self.anchors@.take(i as int).map_values(
                    |a: Anchor| LayerSurfaceRequest::SetAnchor(a),
                ),
        {
            r.push(LayerSurfaceRequest::SetAnchor(self.anchors[i]));
            assert(self.anchors@.take(i + 1) == self.anchors@.take(i as int).push(
                self.anchors@[i as int],
            ));
        }
        assert(self.anchors@.take(n as int) == self.anchors@);
        r.push(LayerSurfaceRequest::SetSize(self.width, self.height));
        if let Some(zone) = self.exclusive_zone {
            r.push(LayerSurfaceRequest::SetExclusiveZone(zone));
        }
        if let Some((top, right, bottom, left)) = self.margin {
            r.push(LayerSurfaceRequest::SetMargin(top, right, bottom, left));
        }
        if let Some(keyboard_interactivity) = self.keyboard_interactivity {
            r.push(LayerSurfaceRequest::SetKeyboardInteractivity(keyboard_interactivity));
        }
        if let Some(edge) = self.exclusive_edge {
            r.push(LayerSurfaceRequest::SetExclusiveEdge(edge));
        }
        assert(r@ == self.requests());
        r
    }
}

/// The number of optional properties of a configuration that are set.
pub open spec fn set_count(c: LayerSurfaceConfig) -> nat {
    (if c.exclusive_zone is Some { 1nat } else { 0nat }) + (if c.margin is Some {
        1nat
    } else {
        0nat
    }) + (if c.keyboard_interactivity is Some { 1nat } else { 0nat }) + (if c.exclusive_edge is Some {
        1nat
    } else {
        0nat
    })
}

/// The requests that set up a layer surface follow its configuration: first
/// one anchor request for each anchor, in order, then the size as
/// configured, then one request for each optional property that is set and
/// none for one that is not. Each optional property is sent with exactly
/// the value it was set to: the requests hold `SetKeyboardInteractivity(k)`
/// exactly when the keyboard interactivity is `Some(k)`, and likewise for
/// the exclusive zone, the margins and the exclusive edge.
pub proof fn lemma_requests_follow_config(
    c: LayerSurfaceConfig,
    k: KeyboardInteractivity,
    zone: i32,
    margin: (i32, i32, i32, i32),
    edge: Anchor,
)
    ensures
        ({
            let r = c.requests();
            let n = c.anchors@.len();
            &&& r.len() == n + 1 + set_count(c)
            &&& forall|i: int| 0 <= i < n ==> r[i] == LayerSurfaceRequest::SetAnchor(c.anchors@[i])
            &&& r[n as int] == LayerSurfaceRequest::SetSize(c.width, c.height)
            &&& r.contains(LayerSurfaceRequest::SetKeyboardInteractivity(k))
                <==> c.keyboard_interactivity == Some(k)
            &&& r.contains(LayerSurfaceRequest::SetExclusiveZone(zone)) <==> c.exclusive_zone
                == Some(zone)
            &&& r.contains(LayerSurfaceRequest::SetMargin(margin.0, margin.1, margin.2, margin.3))
                <==> c.margin == Some(margin)
            &&& r.contains(LayerSurfaceRequest::SetExclusiveEdge(edge)) <==> c.exclusive_edge
                == Some(edge)
        }),
{
    let r = c.requests();
    let anchors = c.anchors@.map_values(|a: Anchor| LayerSurfaceRequest::SetAnchor(a));
    let size = seq![LayerSurfaceRequest::SetSize(c.width, c.height)];
    let oz = optional_request(c.exclusive_zone, |z: i32| LayerSurfaceRequest::SetExclusiveZone(z));
    let om = optional_request(
        c.margin,
        |m: (i32, i32, i32, i32)| LayerSurfaceRequest::SetMargin(m.0, m.1, m.2, m.3),
    );
    let ok = optional_request(
        c.keyboard_interactivity,
        |k: KeyboardInteractivity| LayerSurfaceRequest::SetKeyboardInteractivity(k),
    );
    let oe = optional_request(c.exclusive_edge, |e: Anchor| LayerSurfaceRequest::SetExclusiveEdge(e));
    assert(r == anchors + size + oz + om + ok + oe);
    let n = anchors.len() as int;
    let p1 = n + 1;
    let p2 = p1 + oz.len();
    let p3 = p2 + om.len();
    let p4 = p3 + ok.len();
    assert forall|j: int| 0 <= j < r.len() implies #[trigger] r[j] == (if j < n {
        anchors[j]
    } else if j < p1 {
        size[j - n]
    } else if j < p2 {
        oz[j - p1]
    } else if j < p3 {
        om[j - p2]
    } else if j < p4 {
        ok[j - p3]
    } else {
        oe[j - p4]
    }) by {}
    let rk = LayerSurfaceRequest::SetKeyboardInteractivity(k);
    if r.contains(rk) {
        let j = choose|j: int| 0 <= j < r.len() && r[j] == rk;
        assert(p3 <= j < p4);
    }
    if c.keyboard_interactivity == Some(k) {
        assert(r[p3] == rk);
    }
    let rz = LayerSurfaceRequest::SetExclusiveZone(zone);
    if r.contains(rz) {
        let j = choose|j: int| 0 <= j < r.len() && r[j] == rz;
        assert(p1 <= j < p2);
    }
    if c.exclusive_zone == Some(zone) {
        assert(r[p1] == rz);
    }
    let rm = LayerSurfaceRequest::SetMargin(margin.0, margin.1, margin.2, margin.3);
    if r.contains(rm) {
        let j = choose|j: int| 0 <= j < r.len() && r[j] == rm;
        assert(p2 <= j < p3);
    }
    if c.margin == Some(margin) {
        assert(r[p2] == rm);
    }
    let re = LayerSurfaceRequest::SetExclusiveEdge(edge);
    if r.contains(re) {
        let j = choose|j: int| 0 <= j < r.len() && r[j] == re;
        assert(p4 <= j);
    }
    if c.exclusive_edge == Some(edge) {
        assert(r[p4] == re);
    }
}

} // verus!
