//! Shell roles a surface can take, and the rules for assigning one.

use vstd::prelude::*;

use crate::error::ShellError;

verus! {

/// The edge an AGL panel is attached to.
#[derive(Debug, Clone, Copy, PartialEq, Eq, Structural)]
pub enum Edge {
    Top,
    Bottom,
    Left,
    Right,
}

/// The role a surface is given.
#[derive(Debug, Clone, Copy, PartialEq, Eq, Structural)]
pub enum SurfaceRole {
    Toplevel,
    Fullscreen,
    Panel(Edge),
    Background,
}

/// Which shell protocol backs a surface.
#[derive(Debug, Clone, Copy, PartialEq, Eq, Structural)]
pub enum ShellBackend {
    Xdg,
    Agl,
}

/// Whether the AGL shell accepted this client as its shell client.
#[derive(Debug, Clone, Copy, PartialEq, Eq, Structural)]
pub enum AglBindState {
    Pending,
    BoundOk,
    BoundFail,
}

/// An event of the `agl_shell` global.
#[derive(Debug, Clone, Copy, PartialEq, Eq, Structural)]
pub enum AglShellEvent {
    BoundOk,
    BoundFail,
    /// Any other event.
    Other,
}

impl AglBindState {
    /// Records the compositor's answer to the bind.
    pub fn on_event(&mut self, event: AglShellEvent)
        ensures
            event is BoundOk ==> *final(self) is BoundOk,
            event is BoundFail ==> *final(self) is BoundFail,
            event is Other ==> *final(self) == *old(self),
    {
        match event {
            AglShellEvent::BoundOk => { *self = AglBindState::BoundOk; },
            AglShellEvent::BoundFail => { *self = AglBindState::BoundFail; },
            AglShellEvent::Other => {},
        }
    }
}

/// The edges of the `agl_shell` protocol's `edge` enum.
#[derive(Debug, Clone, Copy, PartialEq, Eq, Structural)]
pub enum AglEdge {
    Top,
    Bottom,
    Left,
    Right,
}

/// The `agl_shell` edge a panel edge is sent as.
pub fn edge_to_agl_edge(edge: Edge) -> (e: AglEdge)
    ensures
        edge is Top <==> e is Top,
        edge is Bottom <==> e is Bottom,
        edge is Left <==> e is Left,
        edge is Right <==> e is Right,
{
    match edge {
        Edge::Top => AglEdge::Top,
        Edge::Bottom => AglEdge::Bottom,
        Edge::Left => AglEdge::Left,
        Edge::Right => AglEdge::Right,
    }
}

/// The requests that give a surface its role under the AGL shell.
#[derive(Debug, Clone, Copy, PartialEq, Eq, Structural)]
pub enum AglRoleRequest {
    /// Create an xdg toplevel.
    Toplevel,
    /// Create an xdg toplevel and make it fullscreen on the surface's output.
    FullscreenToplevel,
    /// `agl_shell.set_panel` on the given edge of the surface's output.
    Panel(AglEdge),
    /// `agl_shell.set_background` on the surface's output.
    Background,
}

/// The requests that give a surface its role under xdg-shell.
#[derive(Debug, Clone, Copy, PartialEq, Eq, Structural)]
pub enum XdgRoleRequest {
    /// Create an xdg toplevel.
    Toplevel,
    /// Create an xdg toplevel and make it fullscreen on an output of the
    /// compositor's choosing.
    FullscreenToplevel,
}

/// The AGL-shell requests for `role`.
pub open spec fn spec_agl_request(role: SurfaceRole) -> AglRoleRequest {
    match role {
        SurfaceRole::Toplevel => AglRoleRequest::Toplevel,
        SurfaceRole::Fullscreen => AglRoleRequest::FullscreenToplevel,
        SurfaceRole::Panel(edge) => AglRoleRequest::Panel(match edge {
            Edge::Top => AglEdge::Top,
            Edge::Bottom => AglEdge::Bottom,
            Edge::Left => AglEdge::Left,
            Edge::Right => AglEdge::Right,
        }),
        SurfaceRole::Background => AglRoleRequest::Background,
    }
}

/// Whether a surface has been given its role. A role, once given, is never
/// changed.
#[derive(Debug)]
pub struct RoleSlot {
    assigned: bool,
}

impl RoleSlot {
    /// Whether a role has been assigned.
    pub closed spec fn spec_assigned(&self) -> bool {
        self.assigned
    }

    /// A surface without a role.
    pub fn new() -> (s: RoleSlot)
        ensures
            !s.spec_assigned(),
    {
        RoleSlot { assigned: false }
    }

    pub fn is_assigned(&self) -> (r: bool)
        ensures
            r == self.spec_assigned(),
    {
        self.assigned
    }

    /// Gives the surface `role` under the AGL shell, returning the requests
    /// to send; refused when a role was given before. Every role is available
    /// under the AGL shell.
    pub fn assign_agl(&mut self, role: SurfaceRole) -> (r: Result<AglRoleRequest, ShellError>)
        ensures
            old(self).spec_assigned() ==> r == Err::<AglRoleRequest, ShellError>(ShellError::RoleAlreadyAssigned),
            !old(self).spec_assigned() ==> r == Ok::<AglRoleRequest, ShellError>(spec_agl_request(role)),
            final(self).spec_assigned(),
    {
        if self.assigned {
            return Err(ShellError::RoleAlreadyAssigned);
        }
        let req = match role {
            SurfaceRole::Toplevel => AglRoleRequest::Toplevel,
            SurfaceRole::Fullscreen => AglRoleRequest::FullscreenToplevel,
            SurfaceRole::Panel(edge) => AglRoleRequest::Panel(edge_to_agl_edge(edge)),
            SurfaceRole::Background => AglRoleRequest::Background,
        };
        self.assigned = true;
        Ok(req)
    }

    /// Gives the surface `role` under xdg-shell, returning the requests to
    /// send; refused when a role was given before, and refused — leaving the
    /// surface without a role — for the AGL-only panel and background roles.
    pub fn assign_xdg(&mut self, role: SurfaceRole) -> (r: Result<XdgRoleRequest, ShellError>)
        ensures
            old(self).spec_assigned() ==> r == Err::<XdgRoleRequest, ShellError>(ShellError::RoleAlreadyAssigned)
                && final(self).spec_assigned(),
            !old(self).spec_assigned() && role is Toplevel ==> r == Ok::<XdgRoleRequest, ShellError>(XdgRoleRequest::Toplevel)
                && final(self).spec_assigned(),
            !old(self).spec_assigned() && role is Fullscreen ==> r == Ok::<XdgRoleRequest, ShellError>(
                XdgRoleRequest::FullscreenToplevel,
            ) && final(self).spec_assigned(),
            !old(self).spec_assigned() && (role is Panel || role is Background) ==> r == Err::<
                XdgRoleRequest,
                ShellError,
            >(ShellError::IncompatibleRole(role)) && !final(self).spec_assigned(),
    {
        if self.assigned {
            return Err(ShellError::RoleAlreadyAssigned);
        }
        let req = match role {
            SurfaceRole::Toplevel => XdgRoleRequest::Toplevel,
            SurfaceRole::Fullscreen => XdgRoleRequest::FullscreenToplevel,
            SurfaceRole::Panel(_) | SurfaceRole::Background => {
                return Err(ShellError::IncompatibleRole(role));
            },
        };
        self.assigned = true;
        Ok(req)
    }
}

} // verus!
