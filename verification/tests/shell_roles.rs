use xdg_desktop_portal_agl::error::ShellError;
use xdg_desktop_portal_agl::shell::{
    edge_to_agl_edge, AglBindState, AglEdge, AglRoleRequest, AglShellEvent, Edge, RoleSlot,
    SurfaceRole, XdgRoleRequest,
};

#[test]
fn a_role_is_assigned_once() {
    let mut slot = RoleSlot::new();
    assert_eq!(slot.assign_agl(SurfaceRole::Panel(Edge::Left)), Ok(AglRoleRequest::Panel(AglEdge::Left)));
    assert!(slot.is_assigned());
    assert_eq!(slot.assign_agl(SurfaceRole::Background), Err(ShellError::RoleAlreadyAssigned));
    assert_eq!(slot.assign_xdg(SurfaceRole::Toplevel), Err(ShellError::RoleAlreadyAssigned));
}

#[test]
fn xdg_refuses_agl_only_roles() {
    let mut slot = RoleSlot::new();
    assert_eq!(
        slot.assign_xdg(SurfaceRole::Background),
        Err(ShellError::IncompatibleRole(SurfaceRole::Background))
    );
    assert!(!slot.is_assigned());
    assert_eq!(slot.assign_xdg(SurfaceRole::Fullscreen), Ok(XdgRoleRequest::FullscreenToplevel));
    assert!(slot.is_assigned());
}

#[test]
fn agl_edges_and_bind_state() {
    assert_eq!(edge_to_agl_edge(Edge::Top), AglEdge::Top);
    assert_eq!(edge_to_agl_edge(Edge::Bottom), AglEdge::Bottom);
    assert_eq!(edge_to_agl_edge(Edge::Right), AglEdge::Right);
    let mut b = AglBindState::Pending;
    b.on_event(AglShellEvent::Other);
    assert_eq!(b, AglBindState::Pending);
    b.on_event(AglShellEvent::BoundFail);
    assert_eq!(b, AglBindState::BoundFail);
    b.on_event(AglShellEvent::BoundOk);
    assert_eq!(b, AglBindState::BoundOk);
}
