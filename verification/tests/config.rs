use raclettui::config::{
    Anchor, KeyboardInteractivity, Layer, LayerSurfaceConfig, LayerSurfaceRequest, ANCHOR_LEFT,
    ANCHOR_RIGHT, ANCHOR_TOP,
};

#[test]
fn default_config() {
    let c = LayerSurfaceConfig::new();
    assert_eq!(c.namespace, "");
    assert_eq!((c.width, c.height), (0, 0));
    assert!(c.anchors.is_empty());
    assert_eq!(c.layer, Layer::Top);
    assert!(c.margin.is_none() && c.exclusive_zone.is_none());
    assert!(c.keyboard_interactivity.is_none() && c.exclusive_edge.is_none());
    assert_eq!(c.layer_surface_requests(), vec![LayerSurfaceRequest::SetSize(0, 0)]);
}

#[test]
fn full_config_requests_in_order() {
    let top = Anchor::from_bits(ANCHOR_TOP);
    let c = LayerSurfaceConfig::new()
        .set_namespace("bar")
        .set_width(500)
        .set_height(400)
        .set_anchor(top)
        .set_anchors(vec![Anchor::from_bits(ANCHOR_LEFT), Anchor::from_bits(ANCHOR_RIGHT)])
        .set_exclusive_zone(10)
        .set_margin(1, 2, 3, 4)
        .set_keyboard_interactivity(KeyboardInteractivity::OnDemand)
        .set_layer(Layer::Overlay)
        .set_exclusive_edge(top);
    assert_eq!(c.namespace, "bar");
    assert_eq!(c.layer, Layer::Overlay);
    assert_eq!(
        c.layer_surface_requests(),
        vec![
            LayerSurfaceRequest::SetAnchor(top),
            LayerSurfaceRequest::SetAnchor(Anchor::from_bits(ANCHOR_LEFT)),
            LayerSurfaceRequest::SetAnchor(Anchor::from_bits(ANCHOR_RIGHT)),
            LayerSurfaceRequest::SetSize(500, 400),
            LayerSurfaceRequest::SetExclusiveZone(10),
            LayerSurfaceRequest::SetMargin(1, 2, 3, 4),
            LayerSurfaceRequest::SetKeyboardInteractivity(KeyboardInteractivity::OnDemand),
            LayerSurfaceRequest::SetExclusiveEdge(top),
        ]
    );
}

#[test]
fn later_setters_replace_earlier() {
    let c = LayerSurfaceConfig::new()
        .set_width(1)
        .set_width(2)
        .set_exclusive_zone(5)
        .set_exclusive_zone(-1)
        .set_keyboard_interactivity(KeyboardInteractivity::Exclusive)
        .set_keyboard_interactivity(KeyboardInteractivity::Disabled);
    assert_eq!(c.width, 2);
    assert_eq!(
        c.layer_surface_requests(),
        vec![
            LayerSurfaceRequest::SetSize(2, 0),
            LayerSurfaceRequest::SetExclusiveZone(-1),
            LayerSurfaceRequest::SetKeyboardInteractivity(KeyboardInteractivity::Disabled),
        ]
    );
}
