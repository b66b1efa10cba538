//! The screens of the editor: the tool bar, the panel of entities, the
//! panel of textures, and the first screen.

use vstd::prelude::*;
use crate::draw::{Art, Canvas, Draw, Picture, Sketch};
use crate::editor::Editor;
use crate::fixed::{saturate, UNIT};
use crate::input::{Input, Poll, User};
use crate::fixed::quotient;
use crate::text::{begins, replace, replaced, starts_with};
use crate::key::{Key, MouseButton};
use crate::shape::Color;
use crate::game::Game;
use crate::status::{InitialState, Status, SuccessState};
use crate::window::LOGO_SHAPE;
use crate::shape::{Rectangle, Vector2, Vector3};
use crate::window::{Asset, Surface, Window, EDIT_SHAPE, TOOL_SHAPE};
use crate::world::{Entity, EntityData, EntityMeta, Kind, Widget};

verus! {

/// The tools of the tool bar that are not modes, and whether each was
/// asked for in a frame.
#[derive(Clone, Copy, PartialEq, Eq, Structural, Debug)]
pub struct Action {
    pub user: bool,
    pub reload: bool,
    pub import: bool,
    pub export: bool,
    pub exit: bool,
}

impl Surface {
    /// The mode of the mode tool at place `k` of the tool bar.
    pub open spec fn mode(k: int) -> Widget {
        if k == 0 {
            Widget::Position
        } else if k == 1 {
            Widget::Rotation
        } else if k == 2 {
            Widget::Scale
        } else if k == 3 {
            Widget::Vertex
        } else if k == 4 {
            Widget::Edge
        } else {
            Widget::Face
        }
    }

    /// The name of the mode tool at place `k`.
    pub open spec fn mode_name(k: int) -> Seq<char> {
        if k == 0 {
            "Position"@
        } else if k == 1 {
            "Rotation"@
        } else if k == 2 {
            "Scale"@
        } else if k == 3 {
            "Vertex"@
        } else if k == 4 {
            "Edge"@
        } else {
            "Face"@
        }
    }

    /// The picture of the mode tool at place `k`.
    pub open spec fn mode_icon(k: int) -> Picture {
        if k == 0 {
            Picture::Position
        } else if k == 1 {
            Picture::Rotation
        } else if k == 2 {
            Picture::Scale
        } else if k == 3 {
            Picture::Vertex
        } else if k == 4 {
            Picture::Edge
        } else {
            Picture::Face
        }
    }

    /// The binding of the mode tool at place `k`.
    pub open spec fn mode_input(user: User, k: int) -> Input {
        if k == 0 {
            user.position
        } else if k == 1 {
            user.rotation
        } else if k == 2 {
            user.scale
        } else if k == 3 {
            user.vertex
        } else if k == 4 {
            user.edge
        } else {
            user.face
        }
    }

    /// What the mode tool at place `k` does, and the mode afterwards.
    /// The tool of the mode that the editor is in is out of use; a tool
    /// that is asked for makes its mode the mode of the editor.
    pub open spec fn mode_tool(
        self,
        list: Seq<Sketch>,
        poll: &Poll,
        asset: &Asset,
        user: User,
        widget: Widget,
        k: int,
    ) -> (Surface, Seq<Sketch>, Widget) {
        let r = self.widget(
            list,
            poll,
            asset,
            Vector2 { x: (8 * UNIT + 44 * UNIT * k) as i64, y: 12000 },
            Self::mode_name(k),
            Self::mode_icon(k),
            Self::mode_input(user, k),
            widget != Self::mode(k),
        );
        (
            r.0,
            r.1,
            if r.2 {
                Self::mode(k)
            } else {
                widget
            },
        )
    }

    /// What the first `n` mode tools do, one after the other.
    pub open spec fn mode_tools(
        self,
        list: Seq<Sketch>,
        poll: &Poll,
        asset: &Asset,
        user: User,
        widget: Widget,
        n: int,
    ) -> (Surface, Seq<Sketch>, Widget)
        decreases n,
    {
        if n <= 0 {
            (self, list, widget)
        } else {
            let before = self.mode_tools(list, poll, asset, user, widget, n - 1);
            before.0.mode_tool(before.1, poll, asset, user, before.2, n - 1)
        }
    }

    /// The name of the tool at place `j` among those that are not modes.
    pub open spec fn action_name(j: int) -> Seq<char> {
        if j == 0 {
            "User"@
        } else if j == 1 {
            "Reload"@
        } else if j == 2 {
            "Import"@
        } else if j == 3 {
            "Export"@
        } else {
            "Exit"@
        }
    }

    /// The picture of the tool at place `j` among those that are not modes.
    pub open spec fn action_icon(j: int) -> Picture {
        if j == 0 {
            Picture::User
        } else if j == 1 {
            Picture::Reload
        } else if j == 2 {
            Picture::Import
        } else if j == 3 {
            Picture::Export
        } else {
            Picture::Exit
        }
    }

    /// The binding of the tool at place `j` among those that are not modes.
    pub open spec fn action_input(user: User, j: int) -> Input {
        if j == 0 {
            user.user
        } else if j == 1 {
            user.reload
        } else if j == 2 {
            user.import
        } else if j == 3 {
            user.export
        } else {
            user.exit
        }
    }

    /// What the tool at place `j` among those that are not modes does,
    /// and whether it is asked for. These tools stand at the right end
    /// of the tool bar.
    pub open spec fn action_tool(
        self,
        list: Seq<Sketch>,
        poll: &Poll,
        asset: &Asset,
        user: User,
        j: int,
    ) -> (Surface, Seq<Sketch>, bool) {
        self.widget(
            list,
            poll,
            asset,
            Vector2 { x: saturate(poll.screen.x - 220 * UNIT + 44 * UNIT * j) as i64, y: 12000 },
            Self::action_name(j),
            Self::action_icon(j),
            Self::action_input(user, j),
            true,
        )
    }

    /// What the tool bar does: the six mode tools, then the five others.
    pub open spec fn draw_widget(
        self,
        list: Seq<Sketch>,
        poll: &Poll,
        asset: &Asset,
        user: User,
        widget: Widget,
    ) -> (Surface, Seq<Sketch>, Widget, Action) {
        let mode = self.mode_tools(list, poll, asset, user, widget, 6);
        let a = mode.0.action_tool(mode.1, poll, asset, user, 0);
        let b = a.0.action_tool(a.1, poll, asset, user, 1);
        let c = b.0.action_tool(b.1, poll, asset, user, 2);
        let d = c.0.action_tool(c.1, poll, asset, user, 3);
        let e = d.0.action_tool(d.1, poll, asset, user, 4);
        (e.0, e.1, mode.2, Action { user: a.2, reload: b.2, import: c.2, export: d.2, exit: e.2 })
    }
}

impl Window {
    fn mode_tool(
        &mut self,
        draw: &mut Canvas,
        poll: &Poll,
        asset: &Asset,
        user: &User,
        widget: &mut Widget,
        k: usize,
    )
        requires
            k < 6,
        ensures
            (final(self)@, final(draw)@, *final(widget)) == old(self)@.mode_tool(
                old(draw)@,
                poll,
                asset,
                *user,
                *old(widget),
                k as int,
            ),
    {
        let point = Vector2::new(8000 + 44000 * (k as i64), 12000);
        let asked = if k == 0 {
            self.widget(
                draw,
                poll,
                asset,
                point,
                "Position",
                Picture::Position,
                &user.position,
                !matches!(*widget, Widget::Position),
            )
        } else if k == 1 {
            self.widget(
                draw,
                poll,
                asset,
                point,
                "Rotation",
                Picture::Rotation,
                &user.rotation,
                !matches!(*widget, Widget::Rotation),
            )
        } else if k == 2 {
            self.widget(
                draw,
                poll,
                asset,
                point,
                "Scale",
                Picture::Scale,
                &user.scale,
                !matches!(*widget, Widget::Scale),
            )
        } else if k == 3 {
            self.widget(
                draw,
                poll,
                asset,
                point,
                "Vertex",
                Picture::Vertex,
                &user.vertex,
                !matches!(*widget, Widget::Vertex),
            )
        } else if k == 4 {
            self.widget(
                draw,
                poll,
                asset,
                point,
                "Edge",
                Picture::Edge,
                &user.edge,
                !matches!(*widget, Widget::Edge),
            )
        } else {
            self.widget(
                draw,
                poll,
                asset,
                point,
                "Face",
                Picture::Face,
                &user.face,
                !matches!(*widget, Widget::Face),
            )
        };
        if asked {
            *widget = if k == 0 {
                Widget::Position
            } else if k == 1 {
                Widget::Rotation
            } else if k == 2 {
                Widget::Scale
            } else if k == 3 {
                Widget::Vertex
            } else if k == 4 {
                Widget::Edge
            } else {
                Widget::Face
            };
        }
    }

    fn action_tool(&mut self, draw: &mut Canvas, poll: &Poll, asset: &Asset, user: &User, j: usize) -> (r:
        bool)
        requires
            j < 5,
        ensures
            (final(self)@, final(draw)@, r) == old(self)@.action_tool(
                old(draw)@,
                poll,
                asset,
                *user,
                j as int,
            ),
    {
        let point = Vector2::new(
            crate::fixed::narrow(poll.screen.x as i128 - 220000 + 44000 * (j as i128)),
            12000,
        );
        if j == 0 {
            self.widget(draw, poll, asset, point, "User", Picture::User, &user.user, true)
        } else if j == 1 {
            self.widget(draw, poll, asset, point, "Reload", Picture::Reload, &user.reload, true)
        } else if j == 2 {
            self.widget(draw, poll, asset, point, "Import", Picture::Import, &user.import, true)
        } else if j == 3 {
            self.widget(draw, poll, asset, point, "Export", Picture::Export, &user.export, true)
        } else {
            self.widget(draw, poll, asset, point, "Exit", Picture::Exit, &user.exit, true)
        }
    }

    /// The tool bar: a tool for each mode, and the tools for the
    /// preferences, for loading the scripts again, for import, export
    /// and leaving. A mode tool that is asked for sets the mode of the
    /// editor. The result says which of the other tools were asked for.
    pub fn draw_widget(
        &mut self,
        draw: &mut Canvas,
        poll: &Poll,
        asset: &Asset,
        editor: &mut Editor,
    ) -> (r: Action)
        ensures
            (final(self)@, final(draw)@, final(editor).widget, r) == old(self)@.draw_widget(
                old(draw)@,
                poll,
                asset,
                old(editor).user,
                old(editor).widget,
            ),
            *final(editor) == (Editor { widget: final(editor).widget, ..*old(editor) }),
    {
        let user = editor.user;
        let mut widget = editor.widget;
        let mut k: usize = 0;
        while k < 6
            invariant
                k <= 6,
                (self@, draw@, widget) == old(self)@.mode_tools(
                    old(draw)@,
                    poll,
                    asset,
                    user,
                    old(editor).widget,
                    k as int,
                ),
            decreases 6 - k,
        {
            self.mode_tool(draw, poll, asset, &user, &mut widget, k);
            k += 1;
        }
        editor.widget = widget;
        let a = self.action_tool(draw, poll, asset, &user, 0);
        let b = self.action_tool(draw, poll, asset, &user, 1);
        let c = self.action_tool(draw, poll, asset, &user, 2);
        let d = self.action_tool(draw, poll, asset, &user, 3);
        let e = self.action_tool(draw, poll, asset, &user, 4);
        Action { user: a, reload: b, import: c, export: d, exit: e }
    }
}

impl Surface {
    /// What a drawer for a vector does, and what becomes of the vector:
    /// the drawer, and while it is open a field for each coordinate.
    pub open spec fn triple(
        self,
        list: Seq<Sketch>,
        poll: &Poll,
        asset: &Asset,
        name: Seq<char>,
        value: Vector3,
    ) -> (Surface, Seq<Sketch>, Vector3) {
        let d = self.drop(list, poll, name);
        if d.2 {
            let x = d.0.record_number(d.1, poll, asset, "X"@, value.x);
            let y = x.0.record_number(x.1, poll, asset, "Y"@, value.y);
            let z = y.0.record_number(y.1, poll, asset, "Z"@, value.z);
            (z.0, z.1, Vector3 { x: x.2, y: y.2, z: z.2 })
        } else {
            (d.0, d.1, value)
        }
    }

    /// What the control of a custom field does: a check box, a field
    /// for a number or a text field, by what the field holds. A field
    /// that holds anything else has no control.
    pub open spec fn custom(self, list: Seq<Sketch>, poll: &Poll, asset: &Asset, field: EntityData) -> (
        Surface,
        Seq<Sketch>,
    ) {
        match field.kind {
            Kind::Bool(value) => (
                self.toggle(list, poll, field.info@, value).0,
                self.toggle(list, poll, field.info@, value).1,
            ),
            Kind::Number(value) => (
                self.record_number(list, poll, asset, field.info@, value).0,
                self.record_number(list, poll, asset, field.info@, value).1,
            ),
            Kind::Text(value) => (
                self.record(list, poll, asset, field.info@, value@).0,
                self.record(list, poll, asset, field.info@, value@).1,
            ),
            Kind::Other(_) => (self, list),
        }
    }

    /// `after` is the custom field `before` once its control has had
    /// the frame: it holds what the control made of what it held.
    pub open spec fn custom_left(
        self,
        list: Seq<Sketch>,
        poll: &Poll,
        asset: &Asset,
        before: EntityData,
        after: EntityData,
    ) -> bool {
        &&& after.name == before.name
        &&& after.info == before.info
        &&& match before.kind {
            Kind::Bool(value) => after.kind == Kind::Bool(
                self.toggle(list, poll, before.info@, value).2,
            ),
            Kind::Number(value) => after.kind == Kind::Number(
                self.record_number(list, poll, asset, before.info@, value).2,
            ),
            Kind::Text(value) => after.kind matches Kind::Text(text) && text@ == self.record(
                list,
                poll,
                asset,
                before.info@,
                value@,
            ).2,
            Kind::Other(_) => after.kind == before.kind,
        }
    }

    /// What the controls of the first `n` custom fields do, one after
    /// the other.
    pub open spec fn customs(
        self,
        list: Seq<Sketch>,
        poll: &Poll,
        asset: &Asset,
        data: Seq<EntityData>,
        n: int,
    ) -> (Surface, Seq<Sketch>)
        decreases n,
    {
        if n <= 0 {
            (self, list)
        } else {
            let before = self.customs(list, poll, asset, data, n - 1);
            before.0.custom(before.1, poll, asset, data[n - 1])
        }
    }

    /// The extent of the sheet of an entity, from the cursor down to
    /// the middle of the screen.
    pub open spec fn sheet_place(self, poll: &Poll) -> Rectangle {
        Rectangle {
            x: self.point.x,
            y: self.point.y,
            width: (EDIT_SHAPE - 24 * UNIT) as i64,
            height: saturate(quotient(poll.screen.y as int, 2) - self.point.y - 32 * UNIT) as i64,
        }
    }

    /// What the upper part of the sheet of an entity does, and what
    /// becomes of the place, the turn and the scale of the entity: a
    /// scroll region opens, and in it stand what the entity is and a
    /// drawer for each of the three.
    pub open spec fn sheet_head(self, list: Seq<Sketch>, poll: &Poll, asset: &Asset, entity: Entity) -> (
        Surface,
        Seq<Sketch>,
        Vector3,
        Vector3,
        Vector3,
    ) {
        let open = self.scroll_begin(list, "##Entity Data"@, self.sheet_place(poll));
        let info = open.0.text(open.1, asset, entity.meta.info@, Window::spec_text_white());
        let p = info.0.triple(info.1, poll, asset, "Position"@, entity.position);
        let r = p.0.triple(p.1, poll, asset, "Rotation"@, entity.rotation);
        let s = r.0.triple(r.1, poll, asset, "Scale"@, entity.scale);
        (s.0, s.1, p.2, r.2, s.2)
    }

    /// What the sheet of an entity does: its upper part, the controls
    /// of the custom fields, the end of the scroll region, and a rule.
    pub open spec fn sheet(self, list: Seq<Sketch>, poll: &Poll, asset: &Asset, entity: Entity) -> (
        Surface,
        Seq<Sketch>,
    ) {
        let head = self.sheet_head(list, poll, asset, entity);
        let fields = head.0.customs(
            head.1,
            poll,
            asset,
            entity.meta.data@,
            entity.meta.data.len() as int,
        );
        let close = fields.0.scroll_end(fields.1, poll, "##Entity Data"@, self.sheet_place(poll));
        close.0.separator(close.1, Vector2 { x: (EDIT_SHAPE - 24 * UNIT) as i64, y: 2000 })
    }

    /// `after` is the entity `before` once its sheet has had the frame.
    pub open spec fn sheet_left(
        self,
        list: Seq<Sketch>,
        poll: &Poll,
        asset: &Asset,
        before: Entity,
        after: Entity,
    ) -> bool {
        let head = self.sheet_head(list, poll, asset, before);
        &&& after.position == head.2
        &&& after.rotation == head.3
        &&& after.scale == head.4
        &&& after.focus == before.focus
        &&& after.meta.name == before.meta.name
        &&& after.meta.info == before.meta.info
        &&& after.meta.shape == before.meta.shape
        &&& after.meta.call == before.meta.call
        &&& after.meta.data.len() == before.meta.data.len()
        &&& forall|k: int|
            0 <= k < before.meta.data.len() ==> head.0.customs(
                head.1,
                poll,
                asset,
                before.meta.data@,
                k,
            ).0.custom_left(
                head.0.customs(head.1, poll, asset, before.meta.data@, k).1,
                poll,
                asset,
                before.meta.data[k],
                #[trigger] after.meta.data[k],
            )
    }
}

impl Window {
    /// A drawer for a vector, with the identity `name`: while it is
    /// open, a field for each coordinate stands under it.
    pub fn triple(
        &mut self,
        draw: &mut Canvas,
        poll: &Poll,
        asset: &Asset,
        name: &str,
        value: &mut Vector3,
    )
        ensures
            (final(self)@, final(draw)@, *final(value)) == old(self)@.triple(
                old(draw)@,
                poll,
                asset,
                name@,
                *old(value),
            ),
    {
        if self.drop(draw, poll, name) {
            let mut x = value.x;
            let mut y = value.y;
            let mut z = value.z;
            self.record_number(draw, poll, asset, "X", &mut x);
            self.record_number(draw, poll, asset, "Y", &mut y);
            self.record_number(draw, poll, asset, "Z", &mut z);
            *value = Vector3::new(x, y, z);
        }
    }

    /// The control of a custom field of an entity.
    pub fn custom(&mut self, draw: &mut Canvas, poll: &Poll, asset: &Asset, field: &mut EntityData)
        ensures
            (final(self)@, final(draw)@) == old(self)@.custom(old(draw)@, poll, asset, *old(field)),
            old(self)@.custom_left(old(draw)@, poll, asset, *old(field), *final(field)),
    {
        match &mut field.kind {
            Kind::Bool(value) => {
                self.toggle(draw, poll, field.info.as_str(), value);
            },
            Kind::Number(value) => {
                self.record_number(draw, poll, asset, field.info.as_str(), value);
            },
            Kind::Text(value) => {
                self.record(draw, poll, asset, field.info.as_str(), value);
            },
            Kind::Other(_) => {},
        }
    }

    /// The sheet of an entity: what it is, its place, turn and scale,
    /// and its custom fields, each with a control to change it.
    pub fn sheet(&mut self, draw: &mut Canvas, poll: &Poll, asset: &Asset, entity: &mut Entity)
        ensures
            (final(self)@, final(draw)@) == old(self)@.sheet(old(draw)@, poll, asset, *old(entity)),
            old(self)@.sheet_left(old(draw)@, poll, asset, *old(entity), *final(entity)),
    {
        let shape = Rectangle::new(
            self.point.x,
            self.point.y,
            EDIT_SHAPE - 24000,
            crate::fixed::narrow(
                crate::fixed::divide(poll.screen.y as i128, 2) - self.point.y as i128 - 32000,
            ),
        );
        self.scroll_begin(draw, "##Entity Data", shape);
        self.text(draw, asset, entity.meta.info.as_str(), Self::text_white());
        self.triple(draw, poll, asset, "Position", &mut entity.position);
        self.triple(draw, poll, asset, "Rotation", &mut entity.rotation);
        self.triple(draw, poll, asset, "Scale", &mut entity.scale);
        let ghost head = self@;
        let ghost list = draw@;
        let ghost before = old(entity).meta.data@;
        let mut k: usize = 0;
        while k < entity.meta.data.len()
            invariant
                k <= entity.meta.data.len(),
                entity.meta.data.len() == before.len(),
                before == old(entity).meta.data@,
                entity.position == old(self)@.sheet_head(old(draw)@, poll, asset, *old(entity)).2,
                entity.rotation == old(self)@.sheet_head(old(draw)@, poll, asset, *old(entity)).3,
                entity.scale == old(self)@.sheet_head(old(draw)@, poll, asset, *old(entity)).4,
                entity.focus == old(entity).focus,
                entity.meta.name == old(entity).meta.name,
                entity.meta.info == old(entity).meta.info,
                entity.meta.shape == old(entity).meta.shape,
                entity.meta.call == old(entity).meta.call,
                (self@, draw@) == head.customs(list, poll, asset, before, k as int),
                forall|i: int|
                    0 <= i < k ==> head.customs(list, poll, asset, before, i).0.custom_left(
                        head.customs(list, poll, asset, before, i).1,
                        poll,
                        asset,
                        before[i],
                        #[trigger] entity.meta.data[i],
                    ),
                forall|i: int| k <= i < before.len() ==> #[trigger] entity.meta.data[i] == before[i],
            decreases entity.meta.data.len() - k,
        {
            self.custom(draw, poll, asset, &mut entity.meta.data[k]);
            k += 1;
        }
        self.scroll_end(draw, poll, "##Entity Data", shape);
        self.separator(draw, Vector2::new(EDIT_SHAPE - 24000, 2000));
    }
}

impl Surface {
    /// What the button of a kind of entity in the catalogue does, and
    /// whether the kind is asked for. A kind whose name does not begin
    /// with what is searched for has no button.
    pub open spec fn offer(
        self,
        list: Seq<Sketch>,
        poll: &Poll,
        search: Seq<char>,
        meta: EntityMeta,
    ) -> (Surface, Seq<Sketch>, bool) {
        if begins(meta.name@, search) {
            let button = self.button_shape(
                list,
                poll,
                meta.name@,
                Some(Vector2 { x: (EDIT_SHAPE - 24 * UNIT) as i64, y: 32000 }),
                None,
                true,
            );
            (button.0, button.1, button.2.0.click)
        } else {
            (self, list, false)
        }
    }

    /// What the buttons of the first `n` kinds do, and which of the
    /// kinds are asked for, in their order.
    pub open spec fn offers(
        self,
        list: Seq<Sketch>,
        poll: &Poll,
        search: Seq<char>,
        meta: Seq<EntityMeta>,
        n: int,
    ) -> (Surface, Seq<Sketch>, Seq<usize>)
        decreases n,
    {
        if n <= 0 {
            (self, list, Seq::empty())
        } else {
            let before = self.offers(list, poll, search, meta, n - 1);
            let here = before.0.offer(before.1, poll, search, meta[n - 1]);
            (
                here.0,
                here.1,
                if here.2 {
                    before.2.push((n - 1) as usize)
                } else {
                    before.2
                },
            )
        }
    }

    /// The extent of a list that fills the panel from the cursor down.
    pub open spec fn list_place(self, poll: &Poll) -> Rectangle {
        Rectangle {
            x: self.point.x,
            y: self.point.y,
            width: (EDIT_SHAPE - 24 * UNIT) as i64,
            height: saturate(poll.screen.y - self.point.y - 16 * UNIT) as i64,
        }
    }

    /// What the catalogue of kinds does, and which kinds are asked for:
    /// a scroll region with a button for each kind that is searched
    /// for.
    pub open spec fn catalog(
        self,
        list: Seq<Sketch>,
        poll: &Poll,
        search: Seq<char>,
        meta: Seq<EntityMeta>,
    ) -> (Surface, Seq<Sketch>, Seq<usize>) {
        let open = self.scroll_begin(list, "##Entity Scroll"@, self.list_place(poll));
        let all = open.0.offers(open.1, poll, search, meta, meta.len() as int);
        let close = all.0.scroll_end(all.1, poll, "##Entity Scroll"@, self.list_place(poll));
        (close.0, close.1, all.2)
    }

    /// The place of the first entity in focus at or after `from`, or
    /// the number of entities.
    pub open spec fn focus_at(entity: Seq<Entity>, from: int) -> int
        decreases entity.len() - from,
    {
        if from < 0 || from >= entity.len() {
            entity.len() as int
        } else if entity[from].focus {
            from
        } else {
            Self::focus_at(entity, from + 1)
        }
    }

    /// Where the panel begins: at the left of the panel, below the
    /// tools.
    pub open spec fn panel(self, poll: &Poll) -> Surface {
        self.at(Vector2 { x: saturate(poll.screen.x - EDIT_SHAPE + 12 * UNIT) as i64, y: 120000 })
    }

    /// What the panel of entities does: the sheet of the first entity
    /// in focus, if there is one, the field to search the catalogue
    /// with, and the catalogue. With it come what is searched for
    /// afterwards and the kinds that are asked for.
    pub open spec fn draw_entity(
        self,
        list: Seq<Sketch>,
        poll: &Poll,
        asset: &Asset,
        entity: Seq<Entity>,
        search: Seq<char>,
        meta: Seq<EntityMeta>,
    ) -> (Surface, Seq<Sketch>, Seq<char>, Seq<usize>) {
        let e = Self::focus_at(entity, 0);
        let sheet = if e < entity.len() {
            self.panel(poll).sheet(list, poll, asset, entity[e])
        } else {
            (self.panel(poll), list)
        };
        let field = sheet.0.record(sheet.1, poll, asset, "Search Ent."@, search);
        let all = field.0.catalog(field.1, poll, field.2, meta);
        (all.0, all.1, field.2, all.2)
    }
}

impl Surface {
    /// What the panel of entities of an editor does.
    pub open spec fn entity_panel(self, list: Seq<Sketch>, poll: &Poll, asset: &Asset, editor: Editor) -> (
        Surface,
        Seq<Sketch>,
        Seq<char>,
        Seq<usize>,
    ) {
        self.draw_entity(
            list,
            poll,
            asset,
            editor.world.entity@,
            editor.search_ent@,
            editor.meta.entity@,
        )
    }

    /// `after` is the editor `before` once the panel of entities has
    /// had the frame: the entity whose sheet was shown is as the sheet
    /// left it, what is searched for is as its field left it, and each
    /// kind that was asked for has a new entity at the end of the
    /// scene. Nothing else has changed.
    pub open spec fn entity_panel_left(
        self,
        list: Seq<Sketch>,
        poll: &Poll,
        asset: &Asset,
        before: Editor,
        after: Editor,
    ) -> bool {
        let out = self.entity_panel(list, poll, asset, before);
        let first = Self::focus_at(before.world.entity@, 0);
        let count = before.world.entity.len();
        &&& after.search_ent@ == out.2
        &&& after.world.entity.len() == count + out.3.len()
        &&& forall|i: int|
            0 <= i < count && i != first ==> #[trigger] after.world.entity[i]
                == before.world.entity[i]
        &&& first < count ==> self.panel(poll).sheet_left(
            list,
            poll,
            asset,
            before.world.entity[first],
            after.world.entity[first],
        )
        &&& forall|j: int|
            0 <= j < out.3.len() ==> (#[trigger] after.world.entity[count + j]).made(
                before.meta.entity[out.3[j] as int],
            )
        &&& after.world.brush == before.world.brush
        &&& after.widget == before.widget
        &&& after.view == before.view
        &&& after.game == before.game
        &&& after.user == before.user
        &&& after.meta == before.meta
        &&& after.asset == before.asset
        &&& after.search_tex == before.search_tex
        &&& after.menu == before.menu
    }

    /// What the panel of textures of an editor does.
    pub open spec fn texture_panel(self, list: Seq<Sketch>, poll: &Poll, asset: &Asset, editor: Editor) -> (
        Surface,
        Seq<Sketch>,
        Seq<char>,
        Option<Seq<char>>,
    ) {
        self.draw_texture(
            list,
            poll,
            asset,
            editor.asset.names(),
            editor.game.path@,
            editor.search_tex@,
        )
    }

    /// `after` is the editor `before` once the panel of textures has
    /// had the frame: what is searched for is as its field left it,
    /// and the brushes in focus are painted with the texture that was
    /// clicked, if one was. Nothing else has changed.
    pub open spec fn texture_panel_left(
        self,
        list: Seq<Sketch>,
        poll: &Poll,
        asset: &Asset,
        before: Editor,
        after: Editor,
    ) -> bool {
        let out = self.texture_panel(list, poll, asset, before);
        &&& after.search_tex@ == out.2
        &&& match out.3 {
            Some(name) => after.world.painted(before.world, name),
            None => after.world == before.world,
        }
        &&& after.widget == before.widget
        &&& after.view == before.view
        &&& after.game == before.game
        &&& after.user == before.user
        &&& after.meta == before.meta
        &&& after.asset == before.asset
        &&& after.search_ent == before.search_ent
        &&& after.menu == before.menu
    }
}

impl Entity {
    /// This entity is one of the kind `meta` as it is made.
    pub open spec fn made(self, meta: EntityMeta) -> bool {
        &&& self.position == (Vector3 { x: 0, y: 0, z: 0 })
        &&& self.rotation == (Vector3 { x: 0, y: 0, z: 0 })
        &&& self.scale == (Vector3 { x: UNIT, y: UNIT, z: UNIT })
        &&& !self.focus
        &&& self.meta.same(meta)
    }
}

impl Window {
    /// The catalogue of the kinds of entity: a scroll region with a
    /// button for each kind whose name begins with `search`. The result
    /// lists the kinds that were asked for, by their places in `meta`.
    pub fn catalog(&mut self, draw: &mut Canvas, poll: &Poll, search: &str, meta: &Vec<EntityMeta>) -> (chosen:
        Vec<usize>)
        ensures
            (final(self)@, final(draw)@, chosen@) == old(self)@.catalog(
                old(draw)@,
                poll,
                search@,
                meta@,
            ),
            forall|j: int| 0 <= j < chosen.len() ==> (#[trigger] chosen[j]) < meta.len(),
    {
        let shape = Rectangle::new(
            self.point.x,
            self.point.y,
            EDIT_SHAPE - 24000,
            crate::fixed::narrow(poll.screen.y as i128 - self.point.y as i128 - 16000),
        );
        self.scroll_begin(draw, "##Entity Scroll", shape);
        let ghost start = self@;
        let ghost list = draw@;
        let mut chosen: Vec<usize> = Vec::new();
        let mut k: usize = 0;
        while k < meta.len()
            invariant
                k <= meta.len(),
                (self@, draw@, chosen@) == start.offers(list, poll, search@, meta@, k as int),
                forall|j: int| 0 <= j < chosen.len() ==> (#[trigger] chosen[j]) < meta.len(),
            decreases meta.len() - k,
        {
            if starts_with(meta[k].name.as_str(), search) {
                let button = self.button_shape(
                    draw,
                    poll,
                    meta[k].name.as_str(),
                    Some(Vector2::new(EDIT_SHAPE - 24000, 32000)),
                    None,
                    true,
                );
                if button.0.click {
                    chosen.push(k);
                }
            }
            k += 1;
        }
        self.scroll_end(draw, poll, "##Entity Scroll", shape);
        chosen
    }

    /// The panel of entities. The first entity in focus shows its
    /// sheet; under it stand the field to search the catalogue with,
    /// and the catalogue. Each kind that is asked for is added to the
    /// scene as it is made.
    pub fn draw_entity(&mut self, draw: &mut Canvas, poll: &Poll, asset: &Asset, editor: &mut Editor)
        ensures
            (final(self)@, final(draw)@) == (
                old(self)@.entity_panel(old(draw)@, poll, asset, *old(editor)).0,
                old(self)@.entity_panel(old(draw)@, poll, asset, *old(editor)).1,
            ),
            old(self)@.entity_panel_left(old(draw)@, poll, asset, *old(editor), *final(editor)),
            old(editor).world.wf() ==> final(editor).world.wf(),
    {
        self.point(
            Vector2::new(
                crate::fixed::narrow(poll.screen.x as i128 - EDIT_SHAPE as i128 + 12000),
                120000,
            ),
        );
        let mut e: usize = 0;
        while e < editor.world.entity.len() && !editor.world.entity[e].focus
            invariant
                e <= editor.world.entity.len(),
                *editor == *old(editor),
                Surface::focus_at(editor.world.entity@, 0) == Surface::focus_at(
                    editor.world.entity@,
                    e as int,
                ),
            decreases editor.world.entity.len() - e,
        {
            e += 1;
        }
        if e < editor.world.entity.len() {
            self.sheet(draw, poll, asset, &mut editor.world.entity[e]);
        }
        self.record(draw, poll, asset, "Search Ent.", &mut editor.search_ent);
        let chosen = self.catalog(draw, poll, editor.search_ent.as_str(), &editor.meta.entity);
        let ghost count = editor.world.entity.len();
        let ghost search = editor.search_ent@;
        let mut j: usize = 0;
        while j < chosen.len()
            invariant
                j <= chosen.len(),
                editor.search_ent@ == search,
                count == old(editor).world.entity.len(),
                editor.world.entity.len() == count + j,
                forall|i: int| 0 <= i < chosen.len() ==> (#[trigger] chosen[i]) < editor.meta.entity.len(),
                forall|i: int|
                    0 <= i < count && i != e ==> #[trigger] editor.world.entity[i] == old(
                        editor,
                    ).world.entity[i],
                e < count ==> old(self)@.panel(poll).sheet_left(
                    old(draw)@,
                    poll,
                    asset,
                    old(editor).world.entity[e as int],
                    editor.world.entity[e as int],
                ),
                forall|i: int|
                    0 <= i < j ==> (#[trigger] editor.world.entity[count + i]).made(
                        editor.meta.entity[chosen[i] as int],
                    ),
                editor.world.brush == old(editor).world.brush,
                editor.widget == old(editor).widget,
                editor.view == old(editor).view,
                editor.game == old(editor).game,
                editor.user == old(editor).user,
                editor.meta == old(editor).meta,
                editor.asset == old(editor).asset,
                editor.search_tex == old(editor).search_tex,
                editor.menu == old(editor).menu,
            decreases chosen.len() - j,
        {
            let meta = editor.meta.entity[chosen[j]].duplicate();
            editor.world.entity.push(Entity::new_from_lua(meta));
            j += 1;
        }
    }
}

/// The shelf of textures while it is filled: the surface and the
/// canvas, how many textures stand on it, the tip to show and the
/// texture to paint with, if any.
pub struct Shelf {
    pub surface: Surface,
    pub list: Seq<Sketch>,
    pub count: int,
    pub tip: Option<(Vector2, Seq<char>)>,
    pub paint: Option<Seq<char>>,
}

impl Surface {
    /// Where the panel of textures begins: at the left of the panel,
    /// under the two buttons that choose the panel.
    pub open spec fn pin(poll: &Poll) -> Vector2 {
        Vector2 { x: saturate(poll.screen.x - EDIT_SHAPE) as i64, y: (TOOL_SHAPE + 64 * UNIT) as i64 }
    }

    /// The extent of the preview of a texture.
    pub open spec fn port(poll: &Poll) -> Rectangle {
        Rectangle { x: Self::pin(poll).x, y: Self::pin(poll).y, width: EDIT_SHAPE, height: 152000 }
    }

    /// What the preview draws: the plain texture, tiled, with the
    /// outline of one tile and a mark at its corner; and, while a
    /// button of the mouse is held over the preview, a tip with where
    /// the texture stands.
    pub open spec fn preview(list: Seq<Sketch>, poll: &Poll, asset: &Asset) -> Seq<Sketch> {
        let pin = Self::pin(poll);
        let port = Self::port(poll);
        let base = list.push(Draw::Clip { shape: port }).push(
            Draw::Block { shape: port, color: Color::spec_red() },
        ).push(
            Draw::Tile {
                art: Art::Icon(Picture::Default),
                shape: Rectangle { x: pin.x, y: pin.y, width: EDIT_SHAPE, height: EDIT_SHAPE },
                size: 128000,
            },
        ).push(
            Draw::Frame {
                shape: Rectangle { x: pin.x, y: pin.y, width: 128000, height: 128000 },
                thick: 2000,
                color: Color::spec_red(),
            },
        ).push(
            Draw::Circle {
                center: Vector2 {
                    x: saturate(pin.x - 4 * UNIT) as i64,
                    y: saturate(pin.y - 4 * UNIT) as i64,
                },
                radius: 8000,
                color: Color::spec_red(),
            },
        );
        let tip = if port.holds(poll.mouse) && (Key::Mouse(MouseButton::Left).spec_down(*poll)
            || Key::Mouse(MouseButton::Right).spec_down(*poll)) {
            Window::tip_drawn(base, asset, poll.screen, pin, "0, 0"@, None)
        } else {
            base
        };
        tip.push(Draw::Unclip)
    }

    /// The binding that the hints of the preview show.
    pub open spec fn hint_input() -> Input {
        Input { modify: None, button: Key::Mouse(MouseButton::Left) }
    }

    /// Where hint number `k` stands.
    pub open spec fn hint_point(poll: &Poll, k: int) -> Vector2 {
        Vector2 {
            x: 20000,
            y: saturate(saturate(poll.screen.y - 266 * UNIT) + 36 * UNIT * k) as i64,
        }
    }

    /// What the hints draw: while the pointer is over the preview, a
    /// tip for each thing that the mouse does there.
    pub open spec fn hints(list: Seq<Sketch>, poll: &Poll, asset: &Asset) -> Seq<Sketch> {
        if Self::port(poll).holds(poll.mouse) {
            Window::tip_drawn(
                Window::tip_drawn(
                    Window::tip_drawn(
                        Window::tip_drawn(
                            list,
                            asset,
                            poll.screen,
                            Self::hint_point(poll, 3),
                            "Shift"@,
                            Some(Self::hint_input()),
                        ),
                        asset,
                        poll.screen,
                        Self::hint_point(poll, 4),
                        "Scale"@,
                        Some(Self::hint_input()),
                    ),
                    asset,
                    poll.screen,
                    Self::hint_point(poll, 5),
                    "Angle"@,
                    Some(Self::hint_input()),
                ),
                asset,
                poll.screen,
                Self::hint_point(poll, 6),
                "Reset"@,
                Some(Self::hint_input()),
            )
        } else {
            list
        }
    }

    /// Where texture number `count` of the shelf stands: the shelf has
    /// rows of five.
    pub open spec fn cell(scroll: Vector2, count: int) -> Vector2 {
        Vector2 {
            x: saturate(scroll.x + (count % 5) * 72 * UNIT) as i64,
            y: saturate(scroll.y + saturate((count / 5) * 72 * UNIT)) as i64,
        }
    }

    /// The shelf with one more texture seen. The texture goes by its
    /// name without the directory of the game; if that begins with
    /// what is searched for, the texture gets a button with its
    /// picture. A button under the pointer asks for a tip with the
    /// name, and a button that is clicked for its texture to paint
    /// with.
    pub open spec fn swatch(
        shelf: Shelf,
        poll: &Poll,
        scroll: Vector2,
        search: Seq<char>,
        path: Seq<char>,
        name: Seq<char>,
    ) -> Shelf {
        let shown = replaced(name, path, ""@);
        if begins(shown, search) {
            let p = Self::cell(scroll, shelf.count);
            let button = shelf.surface.at(p).button_shape(
                shelf.list,
                poll,
                Window::hidden(shown),
                Some(Vector2 { x: 64000, y: 64000 }),
                Some(Art::Named(name)),
                true,
            );
            Shelf {
                surface: button.0,
                list: button.1,
                count: shelf.count + 1,
                tip: if button.2.0.hover {
                    Some(
                        (
                            Vector2 {
                                x: p.x,
                                y: saturate(p.y + saturate(64 * UNIT + button.2.1.lift())) as i64,
                            },
                            shown,
                        ),
                    )
                } else {
                    shelf.tip
                },
                paint: if button.2.0.click {
                    Some(shown)
                } else {
                    shelf.paint
                },
            }
        } else {
            shelf
        }
    }

    /// The shelf with the first `n` textures seen.
    pub open spec fn swatches(
        shelf: Shelf,
        poll: &Poll,
        scroll: Vector2,
        search: Seq<char>,
        path: Seq<char>,
        name: Seq<Seq<char>>,
        n: int,
    ) -> Shelf
        decreases n,
    {
        if n <= 0 {
            shelf
        } else {
            Self::swatch(
                Self::swatches(shelf, poll, scroll, search, path, name, n - 1),
                poll,
                scroll,
                search,
                path,
                name[n - 1],
            )
        }
    }

    /// What the panel of textures does: the preview, the hints, a
    /// rule, the field to search the textures with, and the shelf of
    /// the textures in a scroll region. With it come what is searched
    /// for afterwards and the texture to paint the brushes in focus
    /// with, if one was clicked.
    pub open spec fn draw_texture(
        self,
        list: Seq<Sketch>,
        poll: &Poll,
        asset: &Asset,
        name: Seq<Seq<char>>,
        path: Seq<char>,
        search: Seq<char>,
    ) -> (Surface, Seq<Sketch>, Seq<char>, Option<Seq<char>>) {
        let head = Self::hints(Self::preview(list, poll, asset), poll, asset);
        let start = self.at(
            Vector2 {
                x: saturate(Self::pin(poll).x + 12 * UNIT) as i64,
                y: saturate(Self::pin(poll).y + 160 * UNIT) as i64,
            },
        );
        let rule = start.separator(head, Vector2 { x: (EDIT_SHAPE - 24 * UNIT) as i64, y: 2000 });
        let field = rule.0.record(rule.1, poll, asset, "Search Tex."@, search);
        let open = field.0.scroll_begin(field.1, "##Texture"@, field.0.list_place(poll));
        let shelf = Self::swatches(
            Shelf { surface: open.0, list: open.1, count: 0, tip: None, paint: None },
            poll,
            open.2,
            field.2,
            path,
            name,
            name.len() as int,
        );
        let close = shelf.surface.scroll_end(
            shelf.list,
            poll,
            "##Texture"@,
            field.0.list_place(poll),
        );
        (
            close.0,
            match shelf.tip {
                Some(tip) => Window::tip_drawn(close.1, asset, poll.screen, tip.0, tip.1, None),
                None => close.1,
            },
            field.2,
            shelf.paint,
        )
    }
}

impl Window {
    fn preview(&self, draw: &mut Canvas, poll: &Poll, asset: &Asset)
        ensures
            final(draw)@ == Surface::hints(Surface::preview(old(draw)@, poll, asset), poll, asset),
    {
        let pin = Vector2::new(crate::fixed::minus(poll.screen.x, EDIT_SHAPE), TOOL_SHAPE + 64000);
        let port = Rectangle::new(pin.x, pin.y, EDIT_SHAPE, 152000);
        draw.push(Draw::Clip { shape: port });
        draw.push(Draw::Block { shape: port, color: Color::red() });
        draw.push(
            Draw::Tile {
                art: Art::Icon(Picture::Default),
                shape: Rectangle::new(pin.x, pin.y, EDIT_SHAPE, EDIT_SHAPE),
                size: 128000,
            },
        );
        draw.push(
            Draw::Frame {
                shape: Rectangle::new(pin.x, pin.y, 128000, 128000),
                thick: 2000,
                color: Color::red(),
            },
        );
        draw.push(
            Draw::Circle {
                center: Vector2::new(
                    crate::fixed::minus(pin.x, 4000),
                    crate::fixed::minus(pin.y, 4000),
                ),
                radius: 8000,
                color: Color::red(),
            },
        );
        let inside = port.check_collision_point_rec(poll.mouse);
        if inside {
            if Key::Mouse(MouseButton::Left).get_down(poll) {
                self.tool_tip(draw, poll, asset, pin, "0, 0", None);
            } else if Key::Mouse(MouseButton::Right).get_down(poll) {
                self.tool_tip(draw, poll, asset, pin, "0, 0", None);
            }
        }
        draw.push(Draw::Unclip);
        if inside {
            let input = Input::new(None, Key::Mouse(MouseButton::Left));
            let base = crate::fixed::minus(poll.screen.y, 266000);
            self.tool_tip(
                draw,
                poll,
                asset,
                Vector2::new(20000, crate::fixed::plus(base, 36000 * 3)),
                "Shift",
                Some(&input),
            );
            self.tool_tip(
                draw,
                poll,
                asset,
                Vector2::new(20000, crate::fixed::plus(base, 36000 * 4)),
                "Scale",
                Some(&input),
            );
            self.tool_tip(
                draw,
                poll,
                asset,
                Vector2::new(20000, crate::fixed::plus(base, 36000 * 5)),
                "Angle",
                Some(&input),
            );
            self.tool_tip(
                draw,
                poll,
                asset,
                Vector2::new(20000, crate::fixed::plus(base, 36000 * 6)),
                "Reset",
                Some(&input),
            );
        }
    }

    /// The name under which a texture shows: its name without the
    /// directory of the game.
    pub fn shown_name(name: &str, path: &str) -> (r: String)
        ensures
            r@ == replaced(name@, path@, ""@),
    {
        replace(name, path, "")
    }

    /// The panel of textures. A texture that is clicked paints every
    /// side of every brush in focus.
    pub fn draw_texture(&mut self, draw: &mut Canvas, poll: &Poll, asset: &Asset, editor: &mut Editor)
        ensures
            (final(self)@, final(draw)@) == (
                old(self)@.texture_panel(old(draw)@, poll, asset, *old(editor)).0,
                old(self)@.texture_panel(old(draw)@, poll, asset, *old(editor)).1,
            ),
            old(self)@.texture_panel_left(old(draw)@, poll, asset, *old(editor), *final(editor)),
            old(editor).world.wf() ==> final(editor).world.wf(),
    {
        self.preview(draw, poll, asset);
        let pin = Vector2::new(crate::fixed::minus(poll.screen.x, EDIT_SHAPE), TOOL_SHAPE + 64000);
        self.point(
            Vector2::new(crate::fixed::plus(pin.x, 12000), crate::fixed::plus(pin.y, 160000)),
        );
        self.separator(draw, Vector2::new(EDIT_SHAPE - 24000, 2000));
        self.record(draw, poll, asset, "Search Tex.", &mut editor.search_tex);
        let shape = Rectangle::new(
            self.point.x,
            self.point.y,
            EDIT_SHAPE - 24000,
            crate::fixed::narrow(poll.screen.y as i128 - self.point.y as i128 - 16000),
        );
        let scroll = self.scroll_begin(draw, "##Texture", shape);
        let ghost first = Shelf { surface: self@, list: draw@, count: 0, tip: None, paint: None };
        let ghost name = editor.asset.names();
        let mut count: usize = 0;
        let mut tip: Option<(Vector2, String)> = None;
        let mut paint: Option<String> = None;
        let mut k: usize = 0;
        while k < editor.asset.texture.len()
            invariant
                k <= editor.asset.texture.len(),
                count <= k,
                *editor == (Editor { search_tex: editor.search_tex, ..*old(editor) }),
                name == editor.asset.names(),
                Surface::swatches(
                    first,
                    poll,
                    scroll,
                    editor.search_tex@,
                    editor.game.path@,
                    name,
                    k as int,
                ) == (Shelf {
                    surface: self@,
                    list: draw@,
                    count: count as int,
                    tip: match tip {
                        Some(t) => Some((t.0, t.1@)),
                        None => None,
                    },
                    paint: match paint {
                        Some(p) => Some(p@),
                        None => None,
                    },
                }),
            decreases editor.asset.texture.len() - k,
        {
            proof {
                assert(name[k as int] == editor.asset.texture[k as int]@);
            }
            let full = editor.asset.texture[k].as_str();
            let shown = Self::shown_name(full, editor.game.path.as_str());
            if starts_with(shown.as_str(), editor.search_tex.as_str()) {
                proof {
                    crate::fixed::lemma_scaled_fits((count / 5) as int, 72000);
                }
                let p = Vector2::new(
                    crate::fixed::narrow(scroll.x as i128 + (count % 5) as i128 * 72000),
                    crate::fixed::plus(
                        scroll.y,
                        crate::fixed::narrow((count / 5) as i128 * 72000),
                    ),
                );
                self.point(p);
                let state = self.button_image(
                    draw,
                    poll,
                    shown.as_str(),
                    Vector2::new(64000, 64000),
                    Art::Named(full),
                    true,
                );
                if state.0.hover {
                    tip = Some(
                        (
                            Vector2::new(
                                p.x,
                                crate::fixed::plus(
                                    p.y,
                                    crate::fixed::plus(64000, state.1.get_point()),
                                ),
                            ),
                            shown.clone(),
                        ),
                    );
                }
                if state.0.click {
                    paint = Some(shown);
                }
                count += 1;
            }
            k += 1;
        }
        self.scroll_end(draw, poll, "##Texture", shape);
        if let Some(tip) = tip {
            self.tool_tip(draw, poll, asset, tip.0, tip.1.as_str(), None);
        }
        if let Some(paint) = paint {
            editor.world.paint(paint.as_str());
        }
    }
}

impl Action {
    /// No tool was asked for.
    pub open spec fn spec_none() -> Action {
        Action { user: false, reload: false, import: false, export: false, exit: false }
    }

    /// No tool was asked for.
    #[verifier::when_used_as_spec(spec_none)]
    pub fn none() -> (r: Action)
        ensures
            r == Self::spec_none(),
    {
        Action { user: false, reload: false, import: false, export: false, exit: false }
    }
}

impl Surface {
    /// The cards behind the editor: the panel along the right, and the
    /// tool bar along the top.
    pub open spec fn cards(list: Seq<Sketch>, poll: &Poll) -> Seq<Sketch> {
        Window::sharp(
            Window::sharp(
                list,
                Rectangle {
                    x: saturate(poll.screen.x - EDIT_SHAPE) as i64,
                    y: 0,
                    width: EDIT_SHAPE,
                    height: poll.screen.y,
                },
                Window::spec_primary_main(),
                false,
            ),
            Rectangle { x: 0, y: 0, width: poll.screen.x, height: TOOL_SHAPE },
            Window::spec_primary_main(),
            true,
        )
    }

    /// What the two tools that choose the panel do, and which panel
    /// shows afterwards. The tool of the panel that shows is out of
    /// use.
    pub open spec fn menu_tools(
        self,
        list: Seq<Sketch>,
        poll: &Poll,
        asset: &Asset,
        user: User,
        menu: bool,
    ) -> (Surface, Seq<Sketch>, bool) {
        let texture = self.widget(
            list,
            poll,
            asset,
            Vector2 {
                x: saturate(poll.screen.x - EDIT_SHAPE + 12 * UNIT) as i64,
                y: (TOOL_SHAPE + 16 * UNIT) as i64,
            },
            "Texture"@,
            Picture::Texture,
            user.texture,
            !menu,
        );
        let shown = texture.2 || menu;
        let entity = texture.0.widget(
            texture.1,
            poll,
            asset,
            Vector2 {
                x: saturate(poll.screen.x - EDIT_SHAPE + 56 * UNIT) as i64,
                y: (TOOL_SHAPE + 16 * UNIT) as i64,
            },
            "Entity"@,
            Picture::Entity,
            user.entity,
            shown,
        );
        (entity.0, entity.1, shown && !entity.2)
    }

    /// What the panel that shows does.
    pub open spec fn shown_panel(
        self,
        list: Seq<Sketch>,
        poll: &Poll,
        asset: &Asset,
        editor: Editor,
    ) -> (Surface, Seq<Sketch>) {
        if editor.menu {
            (
                self.texture_panel(list, poll, asset, editor).0,
                self.texture_panel(list, poll, asset, editor).1,
            )
        } else {
            (
                self.entity_panel(list, poll, asset, editor).0,
                self.entity_panel(list, poll, asset, editor).1,
            )
        }
    }

    /// `after` is the editor `before` once the panel that shows has had
    /// the frame.
    pub open spec fn shown_panel_left(
        self,
        list: Seq<Sketch>,
        poll: &Poll,
        asset: &Asset,
        before: Editor,
        after: Editor,
    ) -> bool {
        if before.menu {
            self.texture_panel_left(list, poll, asset, before, after)
        } else {
            self.entity_panel_left(list, poll, asset, before, after)
        }
    }

    /// What a frame of the editor does, on its main page: the cards,
    /// the panel that shows, the tool bar, and the tools that choose
    /// the panel. With it come the mode, the panel that shows
    /// afterwards, and the tools that were asked for.
    pub open spec fn success(self, list: Seq<Sketch>, poll: &Poll, asset: &Asset, editor: Editor) -> (
        Surface,
        Seq<Sketch>,
        Widget,
        bool,
        Action,
    ) {
        let panel = self.begun().shown_panel(Self::cards(list, poll), poll, asset, editor);
        let tools = panel.0.draw_widget(panel.1, poll, asset, editor.user, editor.widget);
        let menu = tools.0.menu_tools(tools.1, poll, asset, editor.user, editor.menu);
        (menu.0, menu.1, tools.2, menu.2, tools.3)
    }
}

impl Window {
    /// A frame of the editor. If the window was asked to close, the
    /// program is to end, and nothing else happens. On the main page
    /// the frame draws the editor and lets its controls act on it; the
    /// result names the tools of the tool bar that were asked for.
    pub fn success(
        &mut self,
        draw: &mut Canvas,
        poll: &Poll,
        asset: &Asset,
        status: &mut SuccessState,
        editor: &mut Editor,
    ) -> (r: (Option<Status>, Action))
        ensures
            *final(status) == *old(status),
            old(editor).world.wf() ==> final(editor).world.wf(),
            r.0 == if poll.close {
                Some(Status::Closure)
            } else {
                None
            },
            poll.close ==> final(self)@ == old(self)@ && final(draw)@ == old(draw)@ && *final(editor)
                == *old(editor) && r.1 == Action::spec_none(),
            !poll.close && *old(status) == SuccessState::User ==> final(self)@ == old(self)@.begun()
                && final(draw)@ == old(draw)@ && *final(editor) == *old(editor) && r.1
                == Action::spec_none(),
            !poll.close && *old(status) == SuccessState::Main ==> {
                let out = old(self)@.success(old(draw)@, poll, asset, *old(editor));
                &&& final(self)@ == out.0
                &&& final(draw)@ == out.1
                &&& final(editor).widget == out.2
                &&& final(editor).menu == out.3
                &&& r.1 == out.4
                &&& old(self)@.begun().shown_panel_left(
                    Surface::cards(old(draw)@, poll),
                    poll,
                    asset,
                    *old(editor),
                    Editor { widget: old(editor).widget, menu: old(editor).menu, ..*final(editor) },
                )
            },
    {
        if poll.close {
            return (Some(Status::Closure), Action::none());
        }
        self.begin();
        match status {
            SuccessState::Main => {
                self.card_sharp(
                    draw,
                    Rectangle::new(
                        crate::fixed::minus(poll.screen.x, EDIT_SHAPE),
                        0,
                        EDIT_SHAPE,
                        poll.screen.y,
                    ),
                    Self::primary_main(),
                    false,
                );
                self.card_sharp(
                    draw,
                    Rectangle::new(0, 0, poll.screen.x, TOOL_SHAPE),
                    Self::primary_main(),
                    true,
                );
                if editor.menu {
                    self.draw_texture(draw, poll, asset, editor);
                } else {
                    self.draw_entity(draw, poll, asset, editor);
                }
                let ghost mid = *editor;
                let action = self.draw_widget(draw, poll, asset, editor);
                let user = editor.user;
                if self.widget(
                    draw,
                    poll,
                    asset,
                    Vector2::new(
                        crate::fixed::narrow(poll.screen.x as i128 - EDIT_SHAPE as i128 + 12000),
                        TOOL_SHAPE + 16000,
                    ),
                    "Texture",
                    Picture::Texture,
                    &user.texture,
                    !editor.menu,
                ) {
                    editor.menu = true;
                }
                if self.widget(
                    draw,
                    poll,
                    asset,
                    Vector2::new(
                        crate::fixed::narrow(poll.screen.x as i128 - EDIT_SHAPE as i128 + 56000),
                        TOOL_SHAPE + 16000,
                    ),
                    "Entity",
                    Picture::Entity,
                    &user.entity,
                    editor.menu,
                ) {
                    editor.menu = false;
                }
                proof {
                    assert((Editor {
                        widget: old(editor).widget,
                        menu: old(editor).menu,
                        ..*editor
                    }) == mid);
                }
                (None, action)
            },
            SuccessState::User => (None, Action::none()),
        }
    }
}

impl Surface {
    /// What the buttons of the games do, from the game at place `from`
    /// on, and the game that is chosen: the buttons end with the first
    /// that is clicked.
    pub open spec fn games(self, list: Seq<Sketch>, poll: &Poll, game: Seq<Game>, from: int) -> (
        Surface,
        Seq<Sketch>,
        Option<int>,
    )
        decreases game.len() - from,
    {
        if from < 0 || from >= game.len() {
            (self, list, None)
        } else {
            let button = self.button_shape(list, poll, game[from].info.name@, None, None, true);
            if button.2.0.click {
                (button.0, button.1, Some(from))
            } else {
                button.0.games(button.1, poll, game, from + 1)
            }
        }
    }

    /// Where the logo stands on the first screen: in the middle of the
    /// screen, higher by half of what its card leaves free.
    pub open spec fn logo_place(poll: &Poll, logo: Vector2) -> Rectangle {
        Rectangle {
            x: saturate(quotient(poll.screen.x as int, 2) - quotient(logo.x as int, 2)) as i64,
            y: saturate(
                quotient(poll.screen.y as int, 2) - quotient(logo.y as int, 2) - quotient(
                    LOGO_SHAPE as int,
                    2,
                ),
            ) as i64,
            width: logo.x,
            height: logo.y,
        }
    }

    /// What the main page of the first screen does, and whether a new
    /// map and the end of the program are asked for: a card with the
    /// logo, and under it the buttons.
    pub open spec fn initial_main(self, list: Seq<Sketch>, poll: &Poll, logo: Vector2) -> (
        Surface,
        Seq<Sketch>,
        bool,
        bool,
    ) {
        let card = Window::sharp(
            list,
            Rectangle {
                x: 0,
                y: 0,
                width: poll.screen.x,
                height: saturate(poll.screen.y - LOGO_SHAPE) as i64,
            },
            Window::spec_primary_main(),
            true,
        ).push(Draw::Image { art: Art::Icon(Picture::Logo), shape: Self::logo_place(poll, logo) });
        let start = self.begun().at(
            Vector2 { x: 20000, y: saturate(poll.screen.y - LOGO_SHAPE + 24 * UNIT) as i64 },
        );
        let new = start.button_shape(card, poll, "New Map"@, None, None, true);
        let load = new.0.button_shape(new.1, poll, "Load Map"@, None, None, true);
        let exit = load.0.button_shape(load.1, poll, "Exit Mallet"@, None, None, true);
        (exit.0, exit.1, new.2.0.click, exit.2.0.click)
    }

    /// What the page of the games does, the game that is chosen, and
    /// whether the way back is asked for: a card with a heading, a
    /// button for each game, and if no game is chosen a button that
    /// leads back.
    pub open spec fn initial_new(self, list: Seq<Sketch>, poll: &Poll, game: Seq<Game>) -> (
        Surface,
        Seq<Sketch>,
        Option<int>,
        bool,
    ) {
        let card = Window::sharp(
            list,
            Rectangle { x: 0, y: 0, width: poll.screen.x, height: 48000 },
            Window::spec_primary_main(),
            true,
        ).push(
            Draw::Text {
                text: "Game Selection"@,
                point: Vector2 { x: 16000, y: 12000 },
                color: Window::spec_text_white(),
            },
        );
        let all = self.begun().at(Vector2 { x: 20000, y: 72000 }).games(card, poll, game, 0);
        if all.2 is Some {
            (all.0, all.1, all.2, false)
        } else {
            let back = all.0.at(
                Vector2 { x: 20000, y: saturate(poll.screen.y - 56 * UNIT) as i64 },
            ).button_shape(all.1, poll, "Back"@, None, None, true);
            (back.0, back.1, None, back.2.0.click)
        }
    }
}

impl Window {
    /// A frame of the first screen. `logo` is the extent of the logo,
    /// `game` the games to choose from. The main page leads to the page
    /// of the games or to the end of the program; a game that is chosen
    /// there leads to the editor. The program also ends if the window
    /// was asked to close.
    pub fn initial(
        &mut self,
        draw: &mut Canvas,
        poll: &Poll,
        status: &mut InitialState,
        logo: Vector2,
        game: &Vec<Game>,
    ) -> (r: Option<Status>)
        ensures
            *old(status) == InitialState::Main ==> {
                let out = old(self)@.initial_main(old(draw)@, poll, logo);
                &&& final(self)@ == out.0
                &&& final(draw)@ == out.1
                &&& *final(status) == if out.2 {
                    InitialState::New
                } else {
                    InitialState::Main
                }
                &&& r == if out.3 || poll.close {
                    Some(Status::Closure)
                } else {
                    None
                }
            },
            *old(status) == InitialState::New ==> {
                let out = old(self)@.initial_new(old(draw)@, poll, game@);
                &&& final(self)@ == out.0
                &&& final(draw)@ == out.1
                &&& *final(status) == if out.3 {
                    InitialState::Main
                } else {
                    InitialState::New
                }
                &&& r == match out.2 {
                    Some(i) => Some(Status::Success(SuccessState::Main, i as usize)),
                    None => if poll.close {
                        Some(Status::Closure)
                    } else {
                        None
                    },
                }
            },
    {
        self.begin();
        match status {
            InitialState::Main => {
                let place = Rectangle::new(
                    crate::fixed::narrow(
                        crate::fixed::divide(poll.screen.x as i128, 2) - crate::fixed::divide(
                            logo.x as i128,
                            2,
                        ),
                    ),
                    crate::fixed::narrow(
                        crate::fixed::divide(poll.screen.y as i128, 2) - crate::fixed::divide(
                            logo.y as i128,
                            2,
                        ) - crate::fixed::divide(LOGO_SHAPE as i128, 2),
                    ),
                    logo.x,
                    logo.y,
                );
                self.card_sharp(
                    draw,
                    Rectangle::new(0, 0, poll.screen.x, crate::fixed::minus(poll.screen.y, LOGO_SHAPE)),
                    Self::primary_main(),
                    true,
                );
                draw.push(Draw::Image { art: Art::Icon(Picture::Logo), shape: place });
                self.point(
                    Vector2::new(
                        20000,
                        crate::fixed::narrow(poll.screen.y as i128 - LOGO_SHAPE as i128 + 24000),
                    ),
                );
                if self.button(draw, poll, "New Map").0.click {
                    *status = InitialState::New;
                }
                self.button(draw, poll, "Load Map");
                if self.button(draw, poll, "Exit Mallet").0.click {
                    return Some(Status::Closure);
                }
            },
            InitialState::New => {
                self.card_sharp(
                    draw,
                    Rectangle::new(0, 0, poll.screen.x, 48000),
                    Self::primary_main(),
                    true,
                );
                self.font(draw, "Game Selection", Vector2::new(16000, 12000), Self::text_white());
                self.point(Vector2::new(20000, 72000));
                let ghost start = self@;
                let ghost list = draw@;
                let mut i: usize = 0;
                while i < game.len()
                    invariant
                        i <= game.len(),
                        *status == InitialState::New,
                        *old(status) == InitialState::New,
                        start == old(self)@.begun().at(Vector2 { x: 20000, y: 72000 }),
                        list == Window::sharp(
                            old(draw)@,
                            Rectangle { x: 0, y: 0, width: poll.screen.x, height: 48000 },
                            Window::spec_primary_main(),
                            true,
                        ).push(
                            Draw::Text {
                                text: "Game Selection"@,
                                point: Vector2 { x: 16000, y: 12000 },
                                color: Window::spec_text_white(),
                            },
                        ),
                        start.games(list, poll, game@, 0) == self@.games(draw@, poll, game@, i as int),
                    decreases game.len() - i,
                {
                    if self.button(draw, poll, game[i].info.name.as_str()).0.click {
                        return Some(Status::Success(SuccessState::Main, i));
                    }
                    i += 1;
                }
                self.point(Vector2::new(20000, crate::fixed::minus(poll.screen.y, 56000)));
                if self.button(draw, poll, "Back").0.click {
                    *status = InitialState::Main;
                }
            },
        }
        if poll.close {
            Some(Status::Closure)
        } else {
            None
        }
    }
}

} // verus!
