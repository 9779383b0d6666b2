//! Computing the current visual style of an element: which of its
//! declared style refinements apply right now, in application order.
//!
//! The style data itself is owned by the embedding application; this
//! module decides, from hover, focus, click and drag state, the ordered
//! list of refinements to fold over the base style. Group-conditioned
//! refinements resolve against the innermost currently-pushed hitbox of
//! the named group, not against the element's own hitbox.

use crate::context::Context;
use crate::group::GroupRegistry;
use crate::element_state::ElementClickedState;
use crate::interaction::{Interactivity, StyleRefinement};
use vstd::prelude::*;

verus! {

/// One style refinement that currently applies, tagged with the
/// condition that selected it. Applying the refinements in list order
/// yields the element's current style.
#[derive(Clone, Copy, Debug, PartialEq, Eq, Structural)]
pub enum StyleLayer {
    /// The base style, always first.
    Base(StyleRefinement),
    /// Focus lies within the tracked handle.
    InFocus(StyleRefinement),
    /// The tracked handle is focused.
    Focus(StyleRefinement),
    /// The named group's innermost hitbox is hovered.
    GroupHover(StyleRefinement),
    /// The element's own hitbox is hovered.
    Hover(StyleRefinement),
    /// A matching drag hovers the named group's innermost hitbox.
    GroupDragOver(StyleRefinement),
    /// A matching drag hovers the element's own hitbox.
    DragOver(StyleRefinement),
    /// The element's group is clicked.
    GroupActive(StyleRefinement),
    /// The element itself is clicked.
    Active(StyleRefinement),
}

/// Whether the hitbox with this id is hovered under the given hit test.
pub open spec fn spec_id_hovered(hit: Seq<u64>, id: u64) -> bool {
    hit.contains(id)
}

/// Whether a named group is hovered: it has a pushed hitbox and its
/// innermost pushed hitbox is hovered.
pub open spec fn spec_group_hovered(groups: GroupRegistry, hit: Seq<u64>, name: Seq<char>) -> bool {
    groups.spec_stack(name).len() > 0 && spec_id_hovered(hit, groups.spec_stack(name).last())
}

/// The focus-conditioned layers.
pub open spec fn spec_focus_layers(config: Interactivity, cx: Context) -> Seq<StyleLayer> {
    if config.tracked_focus_handle is Some {
        let h = config.tracked_focus_handle->0;
        let in_focus: Seq<StyleLayer> = if config.in_focus_style is Some
            && cx.spec_within_focused(h) {
            seq![StyleLayer::InFocus(config.in_focus_style->0)]
        } else {
            Seq::empty()
        };
        let focus: Seq<StyleLayer> = if config.focus_style is Some && cx.spec_is_focused(h) {
            seq![StyleLayer::Focus(config.focus_style->0)]
        } else {
            Seq::empty()
        };
        in_focus + focus
    } else {
        Seq::empty()
    }
}

/// The hover-conditioned layers: group hover resolved against the
/// group's innermost hitbox, own hover against the element's hitbox.
/// Suppressed entirely while a drag is active or when the element has
/// no hitbox this frame.
pub open spec fn spec_hover_layers(
    config: Interactivity,
    cx: Context,
    groups: GroupRegistry,
    hit: Seq<u64>,
    hitbox: Option<u64>,
) -> Seq<StyleLayer> {
    if hitbox is Some && cx.active_drag is None {
        let own = hitbox->0;
        let group_hover: Seq<StyleLayer> = if config.group_hover_style is Some
            && spec_group_hovered(groups, hit, config.group_hover_style->0.group@) {
            seq![StyleLayer::GroupHover(config.group_hover_style->0.style)]
        } else {
            Seq::empty()
        };
        let hover: Seq<StyleLayer> = if config.hover_style is Some && spec_id_hovered(hit, own) {
            seq![StyleLayer::Hover(config.hover_style->0)]
        } else {
            Seq::empty()
        };
        group_hover + hover
    } else {
        Seq::empty()
    }
}

/// The group-drag-over layers for a drag of payload type `ty`, in
/// declaration order.
pub open spec fn spec_group_drag_layers(
    styles: Seq<crate::interaction::GroupDragOverStyle>,
    groups: GroupRegistry,
    hit: Seq<u64>,
    ty: u64,
) -> Seq<StyleLayer>
    decreases styles.len(),
{
    if styles.len() == 0 {
        Seq::empty()
    } else {
        let head: Seq<StyleLayer> = if styles[0].drag_type == ty && spec_group_hovered(
            groups,
            hit,
            styles[0].style.group@,
        ) {
            seq![StyleLayer::GroupDragOver(styles[0].style.style)]
        } else {
            Seq::empty()
        };
        head + spec_group_drag_layers(styles.drop_first(), groups, hit, ty)
    }
}

/// The drag-over layers for a drag of payload type `ty`, in declaration
/// order, applying while the element's own hitbox is hovered.
pub open spec fn spec_drag_layers(
    styles: Seq<crate::interaction::DragOverStyle>,
    hit: Seq<u64>,
    own: u64,
    ty: u64,
) -> Seq<StyleLayer>
    decreases styles.len(),
{
    if styles.len() == 0 {
        Seq::empty()
    } else {
        let head: Seq<StyleLayer> = if styles[0].drag_type == ty && spec_id_hovered(hit, own) {
            seq![StyleLayer::DragOver(styles[0].style)]
        } else {
            Seq::empty()
        };
        head + spec_drag_layers(styles.drop_first(), hit, own, ty)
    }
}

/// The drag-conditioned layers: present only while a drag is active,
/// the element has a hitbox, and the veto predicate allowed the drop.
pub open spec fn spec_drag_over_layers(
    config: Interactivity,
    cx: Context,
    groups: GroupRegistry,
    hit: Seq<u64>,
    hitbox: Option<u64>,
    can_drop: bool,
) -> Seq<StyleLayer> {
    if hitbox is Some && cx.active_drag is Some && can_drop {
        let own = hitbox->0;
        let ty = cx.active_drag->0.value_type;
        spec_group_drag_layers(config.group_drag_over_styles@, groups, hit, ty)
            + spec_drag_layers(config.drag_over_styles@, hit, own, ty)
    } else {
        Seq::empty()
    }
}

/// The click-conditioned layers.
pub open spec fn spec_active_layers(
    config: Interactivity,
    clicked: ElementClickedState,
) -> Seq<StyleLayer> {
    let group_active: Seq<StyleLayer> = if clicked.group && config.group_active_style matches Some(
        gs,
    ) {
        seq![StyleLayer::GroupActive(config.group_active_style->0.style)]
    } else {
        Seq::empty()
    };
    let active: Seq<StyleLayer> = if clicked.element && config.active_style matches Some(s) {
        seq![StyleLayer::Active(config.active_style->0)]
    } else {
        Seq::empty()
    };
    group_active + active
}

/// The element's current style: the ordered refinements to apply, from
/// the base style through focus, hover, drag-over and active layers.
pub open spec fn spec_compute_style(
    config: Interactivity,
    cx: Context,
    groups: GroupRegistry,
    hit: Seq<u64>,
    hitbox: Option<u64>,
    clicked: ElementClickedState,
    can_drop: bool,
) -> Seq<StyleLayer> {
    seq![StyleLayer::Base(config.base_style)] + spec_focus_layers(config, cx)
        + spec_hover_layers(config, cx, groups, hit, hitbox) + spec_drag_over_layers(
        config,
        cx,
        groups,
        hit,
        hitbox,
        can_drop,
    ) + spec_active_layers(config, clicked)
}

/// Compute the element's current visual style: the ordered list of
/// style refinements that apply, given the frame's hit test, the group
/// registry, the click state, and the veto predicate's verdict for the
/// active drag.
#[verifier::rlimit(60)]
pub fn compute_style(
    config: &Interactivity,
    cx: &Context,
    groups: &GroupRegistry,
    hit: &Vec<u64>,
    hitbox: Option<u64>,
    clicked: ElementClickedState,
    can_drop: bool,
) -> (r: Vec<StyleLayer>)
    ensures
        r@ == spec_compute_style(*config, *cx, *groups, hit@, hitbox, clicked, can_drop),
{
    let mut r: Vec<StyleLayer> = Vec::new();
    r.push(StyleLayer::Base(config.base_style));
    proof {
        assert(r@ =~= seq![StyleLayer::Base(config.base_style)]);
    }

    // Focus layers.
    if let Some(h) = config.tracked_focus_handle {
        if config.in_focus_style.is_some() && cx.within_focused(h) {
            match &config.in_focus_style {
                Some(s) => r.push(StyleLayer::InFocus(*s)),
                None => (),
            }
        }
        if config.focus_style.is_some() && cx.is_focused(h) {
            match &config.focus_style {
                Some(s) => r.push(StyleLayer::Focus(*s)),
                None => (),
            }
        }
    }
    proof {
        assert(r@ =~= seq![StyleLayer::Base(config.base_style)] + spec_focus_layers(
            *config,
            *cx,
        ));
    }

    // Hover layers, suppressed while a drag is active.
    if let Some(own) = hitbox {
        if !cx.has_active_drag() {
            match &config.group_hover_style {
                Some(gs) => {
                    match groups.get(&gs.group) {
                        Some(innermost) => {
                            if crate::hitbox::hit_test_contains(hit, innermost) {
                                r.push(StyleLayer::GroupHover(gs.style));
                            }
                        },
                        None => (),
                    }
                },
                None => (),
            }
            match &config.hover_style {
                Some(s) => {
                    if crate::hitbox::hit_test_contains(hit, own) {
                        r.push(StyleLayer::Hover(*s));
                    }
                },
                None => (),
            }
        }
    }
    proof {
        assert(r@ =~= seq![StyleLayer::Base(config.base_style)] + spec_focus_layers(*config, *cx)
            + spec_hover_layers(*config, *cx, *groups, hit@, hitbox));
    }

    // Drag-over layers, only while a drag is active and may drop here.
    let ghost mid = r@;
    if let Some(own) = hitbox {
        let drag_type: Option<u64> = match &cx.active_drag {
            Some(drag) => Some(drag.value_type),
            None => None,
        };
        if let Some(ty) = drag_type {
            if can_drop {
                let ghost gstyles = config.group_drag_over_styles@;
                let mut i: usize = 0;
                while i < config.group_drag_over_styles.len()
                    invariant
                        i <= gstyles.len(),
                        config.group_drag_over_styles@ == gstyles,
                        r@ == mid + spec_group_drag_layers(gstyles.take(i as int), *groups, hit@, ty),
                    decreases gstyles.len() - i,
                {
                    let gd = &config.group_drag_over_styles[i];
                    let ghost before = r@;
                    if gd.drag_type == ty {
                        match groups.get(&gd.style.group) {
                            Some(innermost) => {
                                if crate::hitbox::hit_test_contains(hit, innermost) {
                                    r.push(StyleLayer::GroupDragOver(gd.style.style));
                                }
                            },
                            None => (),
                        }
                    }
                    proof {
                        lemma_group_drag_layers_snoc(gstyles, i as int, *groups, hit@, ty);
                        assert(r@ =~= mid + spec_group_drag_layers(
                            gstyles.take(i as int + 1),
                            *groups,
                            hit@,
                            ty,
                        ));
                    }
                    i = i + 1;
                }
                proof {
                    assert(gstyles.take(gstyles.len() as int) =~= gstyles);
                }
                let ghost mid2 = r@;
                let ghost dstyles = config.drag_over_styles@;
                let mut j: usize = 0;
                while j < config.drag_over_styles.len()
                    invariant
                        j <= dstyles.len(),
                        config.drag_over_styles@ == dstyles,
                        r@ == mid2 + spec_drag_layers(dstyles.take(j as int), hit@, own, ty),
                    decreases dstyles.len() - j,
                {
                    let d = &config.drag_over_styles[j];
                    if d.drag_type == ty {
                        if crate::hitbox::hit_test_contains(hit, own) {
                            r.push(StyleLayer::DragOver(d.style));
                        }
                    }
                    proof {
                        lemma_drag_layers_snoc(dstyles, j as int, hit@, own, ty);
                        assert(r@ =~= mid2 + spec_drag_layers(
                            dstyles.take(j as int + 1),
                            hit@,
                            own,
                            ty,
                        ));
                    }
                    j = j + 1;
                }
                proof {
                    assert(dstyles.take(dstyles.len() as int) =~= dstyles);
                }
            }
        }
    }
    proof {
        assert(r@ =~= mid + spec_drag_over_layers(*config, *cx, *groups, hit@, hitbox, can_drop));
    }

    // Active layers.
    if clicked.group {
        match &config.group_active_style {
            Some(gs) => r.push(StyleLayer::GroupActive(gs.style)),
            None => (),
        }
    }
    if clicked.element {
        match &config.active_style {
            Some(s) => r.push(StyleLayer::Active(*s)),
            None => (),
        }
    }
    proof {
        assert(r@ =~= spec_compute_style(
            *config,
            *cx,
            *groups,
            hit@,
            hitbox,
            clicked,
            can_drop,
        ));
    }
    r
}

proof fn lemma_group_drag_layers_snoc(
    styles: Seq<crate::interaction::GroupDragOverStyle>,
    i: int,
    groups: GroupRegistry,
    hit: Seq<u64>,
    ty: u64,
)
    requires
        0 <= i < styles.len(),
    ensures
        spec_group_drag_layers(styles.take(i + 1), groups, hit, ty) == spec_group_drag_layers(
            styles.take(i),
            groups,
            hit,
            ty,
        ) + (if styles[i].drag_type == ty && spec_group_hovered(groups, hit, styles[i].style.group@) {
            seq![StyleLayer::GroupDragOver(styles[i].style.style)]
        } else {
            Seq::<StyleLayer>::empty()
        }),
    decreases i,
{
    let a = styles.take(i + 1);
    let b = styles.take(i);
    if i == 0 {
        assert(a[0] == styles[0]);
        assert(a.drop_first() =~= Seq::<crate::interaction::GroupDragOverStyle>::empty());
        assert(b =~= Seq::<crate::interaction::GroupDragOverStyle>::empty());
        assert(spec_group_drag_layers(a, groups, hit, ty) =~= spec_group_drag_layers(
            b,
            groups,
            hit,
            ty,
        ) + (if styles[0].drag_type == ty && spec_group_hovered(groups, hit, styles[0].style.group@) {
            seq![StyleLayer::GroupDragOver(styles[0].style.style)]
        } else {
            Seq::<StyleLayer>::empty()
        }));
    } else {
        assert(a[0] == styles[0] && b[0] == styles[0]);
        assert(a.drop_first() =~= styles.drop_first().take(i));
        assert(b.drop_first() =~= styles.drop_first().take(i - 1));
        assert(styles.drop_first()[i - 1] == styles[i]);
        lemma_group_drag_layers_snoc(styles.drop_first(), i - 1, groups, hit, ty);
        assert(spec_group_drag_layers(a, groups, hit, ty) =~= spec_group_drag_layers(
            b,
            groups,
            hit,
            ty,
        ) + (if styles[i].drag_type == ty && spec_group_hovered(groups, hit, styles[i].style.group@) {
            seq![StyleLayer::GroupDragOver(styles[i].style.style)]
        } else {
            Seq::<StyleLayer>::empty()
        }));
    }
}

proof fn lemma_drag_layers_snoc(
    styles: Seq<crate::interaction::DragOverStyle>,
    i: int,
    hit: Seq<u64>,
    own: u64,
    ty: u64,
)
    requires
        0 <= i < styles.len(),
    ensures
        spec_drag_layers(styles.take(i + 1), hit, own, ty) == spec_drag_layers(
            styles.take(i),
            hit,
            own,
            ty,
        ) + (if styles[i].drag_type == ty && spec_id_hovered(hit, own) {
            seq![StyleLayer::DragOver(styles[i].style)]
        } else {
            Seq::<StyleLayer>::empty()
        }),
    decreases i,
{
    let a = styles.take(i + 1);
    let b = styles.take(i);
    if i == 0 {
        assert(a[0] == styles[0]);
        assert(a.drop_first() =~= Seq::<crate::interaction::DragOverStyle>::empty());
        assert(b =~= Seq::<crate::interaction::DragOverStyle>::empty());
        assert(spec_drag_layers(a, hit, own, ty) =~= spec_drag_layers(b, hit, own, ty) + (
        if styles[0].drag_type == ty && spec_id_hovered(hit, own) {
            seq![StyleLayer::DragOver(styles[0].style)]
        } else {
            Seq::<StyleLayer>::empty()
        }));
    } else {
        assert(a[0] == styles[0] && b[0] == styles[0]);
        assert(a.drop_first() =~= styles.drop_first().take(i));
        assert(b.drop_first() =~= styles.drop_first().take(i - 1));
        assert(styles.drop_first()[i - 1] == styles[i]);
        lemma_drag_layers_snoc(styles.drop_first(), i - 1, hit, own, ty);
        assert(spec_drag_layers(a, hit, own, ty) =~= spec_drag_layers(b, hit, own, ty) + (
        if styles[i].drag_type == ty && spec_id_hovered(hit, own) {
            seq![StyleLayer::DragOver(styles[i].style)]
        } else {
            Seq::<StyleLayer>::empty()
        }));
    }
}

/// A group-hover style applies exactly when the group's innermost
/// currently-pushed hitbox is hovered (with no drag active and a hitbox
/// present for the element) — regardless of whether the element's own
/// hitbox is hovered. Likewise, the element's own hover style never
/// depends on the group's hitbox.
pub proof fn lemma_group_hover_tracks_innermost(
    config: Interactivity,
    cx: Context,
    groups: GroupRegistry,
    hit: Seq<u64>,
    own: u64,
    clicked: ElementClickedState,
    can_drop: bool,
)
    requires
        config.group_hover_style is Some,
    ensures
        ({
            let layers = spec_compute_style(config, cx, groups, hit, Some(own), clicked, can_drop);
            layers.contains(StyleLayer::GroupHover(config.group_hover_style->0.style)) == (
            cx.active_drag is None && spec_group_hovered(
                groups,
                hit,
                config.group_hover_style->0.group@,
            ))
        }),
{
    let gs = config.group_hover_style->0;
    let layers = spec_compute_style(config, cx, groups, hit, Some(own), clicked, can_drop);
    let hover = spec_hover_layers(config, cx, groups, hit, Some(own));
    let applies = cx.active_drag is None && spec_group_hovered(groups, hit, gs.group@);
    if applies {
        assert(hover[0] == StyleLayer::GroupHover(gs.style));
        let k = seq![StyleLayer::Base(config.base_style)].len() + spec_focus_layers(
            config,
            cx,
        ).len();
        assert(layers[k as int] == hover[0]);
        assert(layers.contains(StyleLayer::GroupHover(gs.style)));
    } else {
        if layers.contains(StyleLayer::GroupHover(gs.style)) {
            let k = choose|k: int| 0 <= k < layers.len() && layers[k] == StyleLayer::GroupHover(gs.style);
            lemma_no_group_hover_outside_hover_segment(config, cx, groups, hit, Some(own), clicked, can_drop, k);
        }
    }
}

proof fn lemma_no_group_hover_outside_hover_segment(
    config: Interactivity,
    cx: Context,
    groups: GroupRegistry,
    hit: Seq<u64>,
    hitbox: Option<u64>,
    clicked: ElementClickedState,
    can_drop: bool,
    k: int,
)
    requires
        0 <= k < spec_compute_style(config, cx, groups, hit, hitbox, clicked, can_drop).len(),
        spec_compute_style(config, cx, groups, hit, hitbox, clicked, can_drop)[k] matches StyleLayer::GroupHover(s),
    ensures
        ({
            &&& config.group_hover_style matches Some(gs)
            &&& cx.active_drag is None
            &&& spec_group_hovered(groups, hit, gs.group@)
            &&& spec_compute_style(config, cx, groups, hit, hitbox, clicked, can_drop)[k]
                == StyleLayer::GroupHover(gs.style)
        }),
{
    let base = seq![StyleLayer::Base(config.base_style)];
    let focus = spec_focus_layers(config, cx);
    let hover = spec_hover_layers(config, cx, groups, hit, hitbox);
    let dragov = spec_drag_over_layers(config, cx, groups, hit, hitbox, can_drop);
    let active = spec_active_layers(config, clicked);
    let layers = spec_compute_style(config, cx, groups, hit, hitbox, clicked, can_drop);
    assert(layers == base + focus + hover + dragov + active);
    if k < base.len() {
        assert(layers[k] == base[k]);
        assert(false);
    } else if k < base.len() + focus.len() {
        assert(layers[k] == focus[k - base.len()]);
        assert(false);
    } else if k < base.len() + focus.len() + hover.len() {
        assert(layers[k] == hover[k - base.len() - focus.len()]);
    } else if k < base.len() + focus.len() + hover.len() + dragov.len() {
        let i = k - base.len() - focus.len() - hover.len();
        assert(layers[k] == dragov[i]);
        if cx.active_drag is Some && hitbox is Some && can_drop {
            let own = hitbox->0;
            let ty = cx.active_drag->0.value_type;
            let g = spec_group_drag_layers(config.group_drag_over_styles@, groups, hit, ty);
            if i < g.len() {
                lemma_group_drag_layers_shape(config.group_drag_over_styles@, groups, hit, ty, i);
            } else {
                lemma_drag_layers_shape(config.drag_over_styles@, hit, own, ty, i - g.len());
            }
        }
        assert(false);
    } else {
        assert(layers[k] == active[k - base.len() - focus.len() - hover.len() - dragov.len()]);
        assert(false);
    }
}

proof fn lemma_group_drag_layers_shape(
    styles: Seq<crate::interaction::GroupDragOverStyle>,
    groups: GroupRegistry,
    hit: Seq<u64>,
    ty: u64,
    i: int,
)
    requires
        0 <= i < spec_group_drag_layers(styles, groups, hit, ty).len(),
    ensures
        spec_group_drag_layers(styles, groups, hit, ty)[i] matches StyleLayer::GroupDragOver(s),
    decreases styles.len(),
{
    if styles.len() > 0 {
        let head: Seq<StyleLayer> = if styles[0].drag_type == ty && spec_group_hovered(
            groups,
            hit,
            styles[0].style.group@,
        ) {
            seq![StyleLayer::GroupDragOver(styles[0].style.style)]
        } else {
            Seq::empty()
        };
        if i >= head.len() {
            lemma_group_drag_layers_shape(styles.drop_first(), groups, hit, ty, i - head.len());
        }
    }
}

proof fn lemma_drag_layers_shape(
    styles: Seq<crate::interaction::DragOverStyle>,
    hit: Seq<u64>,
    own: u64,
    ty: u64,
    i: int,
)
    requires
        0 <= i < spec_drag_layers(styles, hit, own, ty).len(),
    ensures
        spec_drag_layers(styles, hit, own, ty)[i] matches StyleLayer::DragOver(s),
    decreases styles.len(),
{
    if styles.len() > 0 {
        let head: Seq<StyleLayer> = if styles[0].drag_type == ty && spec_id_hovered(hit, own) {
            seq![StyleLayer::DragOver(styles[0].style)]
        } else {
            Seq::empty()
        };
        if i >= head.len() {
            lemma_drag_layers_shape(styles.drop_first(), hit, own, ty, i - head.len());
        }
    }
}

impl Interactivity {
    /// Compute the visual style for this element, based on the frame's
    /// current hit test and the element's state: the method form of
    /// [`compute_style`].
    pub fn compute_style(
        &self,
        cx: &Context,
        groups: &GroupRegistry,
        hit: &Vec<u64>,
        hitbox: Option<u64>,
        clicked: ElementClickedState,
        can_drop: bool,
    ) -> (r: Vec<StyleLayer>)
        ensures
            r@ == spec_compute_style(*self, *cx, *groups, hit@, hitbox, clicked, can_drop),
    {
        compute_style(self, cx, groups, hit, hitbox, clicked, can_drop)
    }
}

} // verus!
