//! The texts that a frame of the editor can ask the extent of.
//!
//! The library measures no text. It takes extents from a table, and
//! lists here, before the frame, the texts that the table is to hold.
//! The list is enough: two tables that give every listed text the same
//! extent give the same frame.

use vstd::prelude::*;
use crate::editor::Editor;
use crate::input::{Input, Poll, User};
use crate::key::{Key, MouseButton};
use crate::number::{number_text, written};
use crate::shape::Vector3;
use crate::text::{replace, replaced};
use crate::draw::{Art, Picture, Sketch};
use crate::fixed::{saturate, UNIT};
use crate::shape::Vector2;
use crate::panel::Shelf;
use crate::window::{Asset, Surface, Window};
use crate::world::{Entity, EntityData, Kind};

verus! {

/// The texts of a list, each as its characters.
pub open spec fn views(list: Seq<String>) -> Seq<Seq<char>> {
    list.map_values(|text: String| text@)
}

fn note(list: &mut Vec<String>, text: &str)
    ensures
        views(final(list)@) == views(old(list)@).push(text@),
{
    list.push(text.to_owned());
    assert(views(list@) =~= views(old(list)@).push(text@));
}

/// The names of the tools and the texts of the tips of the preview.
pub open spec fn tips(list: Seq<Seq<char>>) -> Seq<Seq<char>> {
    list.push("Position"@).push("Rotation"@).push("Scale"@).push("Vertex"@).push("Edge"@).push(
        "Face"@,
    ).push("User"@).push("Reload"@).push("Import"@).push("Export"@).push("Exit"@).push(
        "Texture"@,
    ).push("Entity"@).push("0, 0"@).push("Shift"@).push("Angle"@).push("Reset"@)
}

fn add_tips(list: &mut Vec<String>)
    ensures
        views(final(list)@) == tips(views(old(list)@)),
{
    note(list, "Position");
    note(list, "Rotation");
    note(list, "Scale");
    note(list, "Vertex");
    note(list, "Edge");
    note(list, "Face");
    note(list, "User");
    note(list, "Reload");
    note(list, "Import");
    note(list, "Export");
    note(list, "Exit");
    note(list, "Texture");
    note(list, "Entity");
    note(list, "0, 0");
    note(list, "Shift");
    note(list, "Angle");
    note(list, "Reset");
}

/// The names of the keys of a binding.
pub open spec fn binding(list: Seq<Seq<char>>, input: Input) -> Seq<Seq<char>> {
    match input.modify {
        Some(modify) => list.push(modify.label()).push(input.button.label()),
        None => list.push(input.button.label()),
    }
}

fn add_binding(list: &mut Vec<String>, input: &Input)
    ensures
        views(final(list)@) == binding(views(old(list)@), *input),
{
    if let Some(modify) = input.modify {
        note(list, modify.name());
    }
    note(list, input.button.name());
}

/// The names of the keys of every binding that a tip can show: those of
/// the tools, and that of the hints of the preview.
pub open spec fn bindings(list: Seq<Seq<char>>, user: User) -> Seq<Seq<char>> {
    binding(
        binding(
            binding(
                binding(
                    binding(
                        binding(
                            binding(
                                binding(
                                    binding(
                                        binding(
                                            binding(
                                                binding(
                                                    binding(
                                                        binding(list, user.position),
                                                        user.rotation,
                                                    ),
                                                    user.scale,
                                                ),
                                                user.vertex,
                                            ),
                                            user.edge,
                                        ),
                                        user.face,
                                    ),
                                    user.user,
                                ),
                                user.reload,
                            ),
                            user.import,
                        ),
                        user.export,
                    ),
                    user.exit,
                ),
                user.texture,
            ),
            user.entity,
        ),
        Input { modify: None, button: Key::Mouse(MouseButton::Left) },
    )
}

fn add_bindings(list: &mut Vec<String>, user: &User)
    ensures
        views(final(list)@) == bindings(views(old(list)@), *user),
{
    add_binding(list, &user.position);
    add_binding(list, &user.rotation);
    add_binding(list, &user.scale);
    add_binding(list, &user.vertex);
    add_binding(list, &user.edge);
    add_binding(list, &user.face);
    add_binding(list, &user.user);
    add_binding(list, &user.reload);
    add_binding(list, &user.import);
    add_binding(list, &user.export);
    add_binding(list, &user.exit);
    add_binding(list, &user.texture);
    add_binding(list, &user.entity);
    add_binding(list, &Input::new(None, Key::Mouse(MouseButton::Left)));
}

/// A text as it stands, and as the keys of the frame would leave it.
pub open spec fn edited(list: Seq<Seq<char>>, text: Seq<char>, poll: &Poll) -> Seq<Seq<char>> {
    list.push(text).push(Window::typed(text, poll))
}

fn add_edited(list: &mut Vec<String>, text: &str, poll: &Poll)
    ensures
        views(final(list)@) == edited(views(old(list)@), text@, poll),
{
    note(list, text);
    let mut after = text.to_owned();
    Window::edit(&mut after, poll);
    note(list, after.as_str());
}

/// A number as it is written, and as it would be written once the keys
/// of the frame had been applied to it.
pub open spec fn number(list: Seq<Seq<char>>, value: i64, poll: &Poll) -> Seq<Seq<char>> {
    list.push(written(value as int)).push(written(Window::retyped(value, poll) as int))
}

fn add_number(list: &mut Vec<String>, value: i64, poll: &Poll)
    ensures
        views(final(list)@) == number(views(old(list)@), value, poll),
{
    let before = number_text(value);
    note(list, before.as_str());
    let after = number_text(Window::retype(value, poll));
    note(list, after.as_str());
}

/// The three coordinates of a vector, as numbers.
pub open spec fn vector(list: Seq<Seq<char>>, value: Vector3, poll: &Poll) -> Seq<Seq<char>> {
    number(number(number(list, value.x, poll), value.y, poll), value.z, poll)
}

fn add_vector(list: &mut Vec<String>, value: Vector3, poll: &Poll)
    ensures
        views(final(list)@) == vector(views(old(list)@), value, poll),
{
    add_number(list, value.x, poll);
    add_number(list, value.y, poll);
    add_number(list, value.z, poll);
}

/// What a custom field holds, where its control measures it: a number
/// or a text.
pub open spec fn field(list: Seq<Seq<char>>, data: EntityData, poll: &Poll) -> Seq<Seq<char>> {
    match data.kind {
        Kind::Number(value) => number(list, value, poll),
        Kind::Text(value) => edited(list, value@, poll),
        _ => list,
    }
}

/// What the first `n` custom fields hold.
pub open spec fn fields(list: Seq<Seq<char>>, data: Seq<EntityData>, poll: &Poll, n: int) -> Seq<
    Seq<char>,
>
    decreases n,
{
    if n <= 0 {
        list
    } else {
        field(fields(list, data, poll, n - 1), data[n - 1], poll)
    }
}

/// What the sheet and the label of an entity measure: its name, what it
/// is, its place, turn and scale, and what its custom fields hold.
pub open spec fn entity(list: Seq<Seq<char>>, entity: Entity, poll: &Poll) -> Seq<Seq<char>> {
    fields(
        vector(
            vector(
                vector(
                    list.push(entity.meta.name@).push(entity.meta.info@),
                    entity.position,
                    poll,
                ),
                entity.rotation,
                poll,
            ),
            entity.scale,
            poll,
        ),
        entity.meta.data@,
        poll,
        entity.meta.data.len() as int,
    )
}

fn add_entity(list: &mut Vec<String>, item: &Entity, poll: &Poll)
    ensures
        views(final(list)@) == entity(views(old(list)@), *item, poll),
{
    note(list, item.meta.name.as_str());
    note(list, item.meta.info.as_str());
    add_vector(list, item.position, poll);
    add_vector(list, item.rotation, poll);
    add_vector(list, item.scale, poll);
    let ghost base = views(list@);
    let mut k: usize = 0;
    while k < item.meta.data.len()
        invariant
            k <= item.meta.data.len(),
            views(list@) == fields(base, item.meta.data@, poll, k as int),
        decreases item.meta.data.len() - k,
    {
        match &item.meta.data[k].kind {
            Kind::Number(value) => add_number(list, *value, poll),
            Kind::Text(value) => add_edited(list, value.as_str(), poll),
            _ => {},
        }
        k += 1;
    }
}

/// What the first `n` entities measure.
pub open spec fn entities(list: Seq<Seq<char>>, item: Seq<Entity>, poll: &Poll, n: int) -> Seq<
    Seq<char>,
>
    decreases n,
{
    if n <= 0 {
        list
    } else {
        entity(entities(list, item, poll, n - 1), item[n - 1], poll)
    }
}

/// The names under which the first `n` textures show.
pub open spec fn textures(list: Seq<Seq<char>>, name: Seq<String>, path: Seq<char>, n: int) -> Seq<
    Seq<char>,
>
    decreases n,
{
    if n <= 0 {
        list
    } else {
        textures(list, name, path, n - 1).push(replaced(name[n - 1]@, path, ""@))
    }
}

impl Editor {
    /// The texts that a frame of this editor can ask the extent of, in
    /// the order in which they are listed: the names of the tools and
    /// the texts of the tips, the names of the keys of the bindings,
    /// what is searched for, the names under which the textures show,
    /// and what the entities show. A text that the keys of the frame can
    /// change stands there as it is and as the keys would leave it.
    pub open spec fn measured(self, poll: &Poll) -> Seq<Seq<char>> {
        entities(
            textures(
                edited(
                    edited(bindings(tips(Seq::empty()), self.user), self.search_ent@, poll),
                    self.search_tex@,
                    poll,
                ),
                self.asset.texture@,
                self.game.path@,
                self.asset.texture.len() as int,
            ),
            self.world.entity@,
            poll,
            self.world.entity.len() as int,
        )
    }

    /// Lists the texts that a frame of this editor can ask the extent
    /// of. Whoever measures for the library measures these.
    pub fn text(&self, poll: &Poll) -> (list: Vec<String>)
        ensures
            views(list@) == self.measured(poll),
    {
        let mut list: Vec<String> = Vec::new();
        assert(views(list@) =~= Seq::<Seq<char>>::empty());
        add_tips(&mut list);
        add_bindings(&mut list, &self.user);
        add_edited(&mut list, self.search_ent.as_str(), poll);
        add_edited(&mut list, self.search_tex.as_str(), poll);
        let ghost base = views(list@);
        let mut k: usize = 0;
        while k < self.asset.texture.len()
            invariant
                k <= self.asset.texture.len(),
                views(list@) == textures(base, self.asset.texture@, self.game.path@, k as int),
            decreases self.asset.texture.len() - k,
        {
            let shown = replace(self.asset.texture[k].as_str(), self.game.path.as_str(), "");
            note(&mut list, shown.as_str());
            k += 1;
        }
        let ghost base = views(list@);
        let mut e: usize = 0;
        while e < self.world.entity.len()
            invariant
                e <= self.world.entity.len(),
                views(list@) == entities(base, self.world.entity@, poll, e as int),
            decreases self.world.entity.len() - e,
        {
            add_entity(&mut list, &self.world.entity[e], poll);
            e += 1;
        }
        list
    }
}

/// Two tables give `text` the same extent.
pub open spec fn same(a: &Asset, b: &Asset, text: Seq<char>) -> bool {
    a.extent(text) == b.extent(text)
}

/// Two tables give every text of `list` the same extent.
pub open spec fn agree(a: &Asset, b: &Asset, list: Seq<Seq<char>>) -> bool {
    forall|i: int| 0 <= i < list.len() ==> same(a, b, #[trigger] list[i])
}

/// Two tables give the names of the keys of a binding the same extent.
pub open spec fn same_input(a: &Asset, b: &Asset, input: Input) -> bool {
    &&& same(a, b, input.button.label())
    &&& input.modify matches Some(modify) ==> same(a, b, modify.label())
}

/// Two tables give a number the same extent, as it is written and as
/// the keys of the frame would leave it.
pub open spec fn same_number(a: &Asset, b: &Asset, value: i64, poll: &Poll) -> bool {
    &&& same(a, b, written(value as int))
    &&& same(a, b, written(Window::retyped(value, poll) as int))
}

/// Two tables give a text the same extent, as it stands and as the keys
/// of the frame would leave it.
pub open spec fn same_edited(a: &Asset, b: &Asset, text: Seq<char>, poll: &Poll) -> bool {
    &&& same(a, b, text)
    &&& same(a, b, Window::typed(text, poll))
}

/// Two tables agree on the coordinates of a vector.
pub open spec fn same_vector(a: &Asset, b: &Asset, value: Vector3, poll: &Poll) -> bool {
    &&& same_number(a, b, value.x, poll)
    &&& same_number(a, b, value.y, poll)
    &&& same_number(a, b, value.z, poll)
}

/// Two tables agree on what a custom field holds.
pub open spec fn same_field(a: &Asset, b: &Asset, data: EntityData, poll: &Poll) -> bool {
    match data.kind {
        Kind::Number(value) => same_number(a, b, value, poll),
        Kind::Text(value) => same_edited(a, b, value@, poll),
        _ => true,
    }
}

/// Two tables agree on what an entity shows.
pub open spec fn same_entity(a: &Asset, b: &Asset, entity: Entity, poll: &Poll) -> bool {
    &&& same(a, b, entity.meta.name@)
    &&& same(a, b, entity.meta.info@)
    &&& same_vector(a, b, entity.position, poll)
    &&& same_vector(a, b, entity.rotation, poll)
    &&& same_vector(a, b, entity.scale, poll)
    &&& forall|k: int|
        0 <= k < entity.meta.data.len() ==> same_field(a, b, #[trigger] entity.meta.data[k], poll)
}

/// A tip is drawn the same with two tables that agree on its text and
/// on the names of the keys of its binding.
pub proof fn lemma_tip(
    list: Seq<Sketch>,
    a: &Asset,
    b: &Asset,
    screen: Vector2,
    point: Vector2,
    text: Seq<char>,
    input: Option<Input>,
)
    requires
        same(a, b, text),
        input matches Some(input) ==> same_input(a, b, input),
    ensures
        Window::tip_drawn(list, a, screen, point, text, input) == Window::tip_drawn(
            list,
            b,
            screen,
            point,
            text,
            input,
        ),
{
}

/// A tool button does the same with two tables that agree on its name
/// and on the names of the keys of its binding.
pub proof fn lemma_widget(
    s: Surface,
    list: Seq<Sketch>,
    poll: &Poll,
    a: &Asset,
    b: &Asset,
    point: Vector2,
    name: Seq<char>,
    icon: Picture,
    input: Input,
    active: bool,
)
    requires
        same(a, b, name),
        same_input(a, b, input),
    ensures
        s.widget(list, poll, a, point, name, icon, input, active) == s.widget(
            list,
            poll,
            b,
            point,
            name,
            icon,
            input,
            active,
        ),
{
    let button = s.at(point).button_shape(
        list,
        poll,
        Window::hidden(name),
        Some(Vector2 { x: 36000, y: 36000 }),
        Some(Art::Icon(icon)),
        active,
    );
    lemma_tip(
        button.1,
        a,
        b,
        poll.screen,
        Vector2 {
            x: point.x,
            y: saturate(point.y + saturate(36 * UNIT + button.2.1.lift())) as i64,
        },
        name,
        Some(input),
    );
}

/// A text field does the same with two tables that agree on what it
/// holds.
pub proof fn lemma_record(
    s: Surface,
    list: Seq<Sketch>,
    poll: &Poll,
    a: &Asset,
    b: &Asset,
    text: Seq<char>,
    value: Seq<char>,
)
    requires
        same_edited(a, b, value, poll),
    ensures
        s.record(list, poll, a, text, value) == s.record(list, poll, b, text, value),
{
}

/// A field for a number does the same with two tables that agree on the
/// number.
pub proof fn lemma_record_number(
    s: Surface,
    list: Seq<Sketch>,
    poll: &Poll,
    a: &Asset,
    b: &Asset,
    text: Seq<char>,
    value: i64,
)
    requires
        same_number(a, b, value, poll),
    ensures
        s.record_number(list, poll, a, text, value) == s.record_number(list, poll, b, text, value),
{
}

/// A drawer for a vector does the same with two tables that agree on
/// the vector.
pub proof fn lemma_triple(
    s: Surface,
    list: Seq<Sketch>,
    poll: &Poll,
    a: &Asset,
    b: &Asset,
    name: Seq<char>,
    value: Vector3,
)
    requires
        same_vector(a, b, value, poll),
    ensures
        s.triple(list, poll, a, name, value) == s.triple(list, poll, b, name, value),
{
    let d = s.drop(list, poll, name);
    lemma_record_number(d.0, d.1, poll, a, b, "X"@, value.x);
    let x = d.0.record_number(d.1, poll, a, "X"@, value.x);
    lemma_record_number(x.0, x.1, poll, a, b, "Y"@, value.y);
    let y = x.0.record_number(x.1, poll, a, "Y"@, value.y);
    lemma_record_number(y.0, y.1, poll, a, b, "Z"@, value.z);
}

/// The control of a custom field does the same, and leaves the same,
/// with two tables that agree on what the field holds.
pub proof fn lemma_custom(
    s: Surface,
    list: Seq<Sketch>,
    poll: &Poll,
    a: &Asset,
    b: &Asset,
    field: EntityData,
)
    requires
        same_field(a, b, field, poll),
    ensures
        s.custom(list, poll, a, field) == s.custom(list, poll, b, field),
        forall|after: EntityData|
            s.custom_left(list, poll, a, field, after) == s.custom_left(list, poll, b, field, after),
{
    match field.kind {
        Kind::Number(value) => {
            lemma_record_number(s, list, poll, a, b, field.info@, value);
        },
        Kind::Text(value) => {
            lemma_record(s, list, poll, a, b, field.info@, value@);
        },
        _ => {},
    }
}

/// The controls of the first `n` custom fields do the same with two
/// tables that agree on what the fields hold.
pub proof fn lemma_customs(
    s: Surface,
    list: Seq<Sketch>,
    poll: &Poll,
    a: &Asset,
    b: &Asset,
    data: Seq<EntityData>,
    n: int,
)
    requires
        0 <= n <= data.len(),
        forall|k: int| 0 <= k < data.len() ==> same_field(a, b, #[trigger] data[k], poll),
    ensures
        s.customs(list, poll, a, data, n) == s.customs(list, poll, b, data, n),
    decreases n,
{
    if n > 0 {
        lemma_customs(s, list, poll, a, b, data, n - 1);
        let before = s.customs(list, poll, a, data, n - 1);
        lemma_custom(before.0, before.1, poll, a, b, data[n - 1]);
    }
}

/// The sheet of an entity does the same, and leaves the same, with two
/// tables that agree on what the entity shows.
pub proof fn lemma_sheet(s: Surface, list: Seq<Sketch>, poll: &Poll, a: &Asset, b: &Asset, entity: Entity)
    requires
        same_entity(a, b, entity, poll),
    ensures
        s.sheet_head(list, poll, a, entity) == s.sheet_head(list, poll, b, entity),
        s.sheet(list, poll, a, entity) == s.sheet(list, poll, b, entity),
        forall|after: Entity|
            s.sheet_left(list, poll, a, entity, after) == s.sheet_left(list, poll, b, entity, after),
{
    let open = s.scroll_begin(list, "##Entity Data"@, s.sheet_place(poll));
    let info = open.0.text(open.1, a, entity.meta.info@, Window::spec_text_white());
    assert(info == open.0.text(open.1, b, entity.meta.info@, Window::spec_text_white()));
    lemma_triple(info.0, info.1, poll, a, b, "Position"@, entity.position);
    let p = info.0.triple(info.1, poll, a, "Position"@, entity.position);
    lemma_triple(p.0, p.1, poll, a, b, "Rotation"@, entity.rotation);
    let r = p.0.triple(p.1, poll, a, "Rotation"@, entity.rotation);
    lemma_triple(r.0, r.1, poll, a, b, "Scale"@, entity.scale);
    let head = s.sheet_head(list, poll, a, entity);
    assert(head == s.sheet_head(list, poll, b, entity));
    let data = entity.meta.data@;
    assert forall|k: int| 0 <= k <= data.len() implies #[trigger] head.0.customs(
        head.1,
        poll,
        a,
        data,
        k,
    ) == head.0.customs(head.1, poll, b, data, k) by {
        lemma_customs(head.0, head.1, poll, a, b, data, k);
    }
    assert forall|k: int, after: EntityData| 0 <= k < data.len() implies #[trigger] head.0.customs(
        head.1,
        poll,
        a,
        data,
        k,
    ).0.custom_left(head.0.customs(head.1, poll, a, data, k).1, poll, a, data[k], after)
        == head.0.customs(head.1, poll, b, data, k).0.custom_left(
        head.0.customs(head.1, poll, b, data, k).1,
        poll,
        b,
        data[k],
        after,
    ) by {
        let at = head.0.customs(head.1, poll, a, data, k);
        lemma_custom(at.0, at.1, poll, a, b, data[k]);
    }
    assert forall|after: Entity|
        s.sheet_left(list, poll, a, entity, after) == s.sheet_left(
            list,
            poll,
            b,
            entity,
            after,
        ) by {
        if s.sheet_left(list, poll, a, entity, after) {
            assert forall|k: int| 0 <= k < entity.meta.data.len() implies head.0.customs(
                head.1,
                poll,
                b,
                data,
                k,
            ).0.custom_left(
                head.0.customs(head.1, poll, b, data, k).1,
                poll,
                b,
                entity.meta.data[k],
                #[trigger] after.meta.data[k],
            ) by {
                assert(head.0.customs(head.1, poll, a, data, k).0.custom_left(
                    head.0.customs(head.1, poll, a, data, k).1,
                    poll,
                    a,
                    entity.meta.data[k],
                    after.meta.data[k],
                ));
            }
        }
        if s.sheet_left(list, poll, b, entity, after) {
            assert forall|k: int| 0 <= k < entity.meta.data.len() implies head.0.customs(
                head.1,
                poll,
                a,
                data,
                k,
            ).0.custom_left(
                head.0.customs(head.1, poll, a, data, k).1,
                poll,
                a,
                entity.meta.data[k],
                #[trigger] after.meta.data[k],
            ) by {
                assert(head.0.customs(head.1, poll, b, data, k).0.custom_left(
                    head.0.customs(head.1, poll, b, data, k).1,
                    poll,
                    b,
                    entity.meta.data[k],
                    after.meta.data[k],
                ));
            }
        }
    }
}

/// Two tables agree on the names of the tools and on the texts of the
/// tips of the preview.
pub open spec fn same_tips(a: &Asset, b: &Asset) -> bool {
    &&& same(a, b, "Position"@)
    &&& same(a, b, "Rotation"@)
    &&& same(a, b, "Scale"@)
    &&& same(a, b, "Vertex"@)
    &&& same(a, b, "Edge"@)
    &&& same(a, b, "Face"@)
    &&& same(a, b, "User"@)
    &&& same(a, b, "Reload"@)
    &&& same(a, b, "Import"@)
    &&& same(a, b, "Export"@)
    &&& same(a, b, "Exit"@)
    &&& same(a, b, "Texture"@)
    &&& same(a, b, "Entity"@)
    &&& same(a, b, "0, 0"@)
    &&& same(a, b, "Shift"@)
    &&& same(a, b, "Angle"@)
    &&& same(a, b, "Reset"@)
}

/// Two tables agree on the names of the keys of every binding that a
/// tip can show.
pub open spec fn same_bindings(a: &Asset, b: &Asset, user: User) -> bool {
    &&& same_input(a, b, user.position)
    &&& same_input(a, b, user.rotation)
    &&& same_input(a, b, user.scale)
    &&& same_input(a, b, user.vertex)
    &&& same_input(a, b, user.edge)
    &&& same_input(a, b, user.face)
    &&& same_input(a, b, user.user)
    &&& same_input(a, b, user.reload)
    &&& same_input(a, b, user.import)
    &&& same_input(a, b, user.export)
    &&& same_input(a, b, user.exit)
    &&& same_input(a, b, user.texture)
    &&& same_input(a, b, user.entity)
    &&& same_input(a, b, Input { modify: None, button: Key::Mouse(MouseButton::Left) })
}

/// Two tables agree on every text that a frame of the editor can ask
/// the extent of.
pub open spec fn enough(a: &Asset, b: &Asset, editor: Editor, poll: &Poll) -> bool {
    &&& same_tips(a, b)
    &&& same_bindings(a, b, editor.user)
    &&& same_edited(a, b, editor.search_ent@, poll)
    &&& same_edited(a, b, editor.search_tex@, poll)
    &&& forall|k: int|
        0 <= k < editor.asset.texture.len() ==> same(
            a,
            b,
            replaced((#[trigger] editor.asset.texture[k])@, editor.game.path@, ""@),
        )
    &&& forall|e: int|
        0 <= e < editor.world.entity.len() ==> same_entity(
            a,
            b,
            #[trigger] editor.world.entity[e],
            poll,
        )
}

/// The place of the first entity in focus is a place of the scene, or
/// the number of entities.
proof fn lemma_focus_at(entity: Seq<Entity>, from: int)
    requires
        0 <= from <= entity.len(),
    ensures
        from <= Surface::focus_at(entity, from) <= entity.len(),
    decreases entity.len() - from,
{
    if from < entity.len() && !entity[from].focus {
        lemma_focus_at(entity, from + 1);
    }
}

/// The panel of entities does the same, and leaves the same, with two
/// tables that agree on what the editor shows.
pub proof fn lemma_entity_panel(
    s: Surface,
    list: Seq<Sketch>,
    poll: &Poll,
    a: &Asset,
    b: &Asset,
    editor: Editor,
)
    requires
        enough(a, b, editor, poll),
    ensures
        s.entity_panel(list, poll, a, editor) == s.entity_panel(list, poll, b, editor),
        forall|after: Editor|
            s.entity_panel_left(list, poll, a, editor, after) == s.entity_panel_left(
                list,
                poll,
                b,
                editor,
                after,
            ),
{
    let entity = editor.world.entity@;
    let e = Surface::focus_at(entity, 0);
    lemma_focus_at(entity, 0);
    if e < entity.len() {
        assert(same_entity(a, b, editor.world.entity[e], poll));
        lemma_sheet(s.panel(poll), list, poll, a, b, entity[e]);
    }
    let sheet = if e < entity.len() {
        s.panel(poll).sheet(list, poll, a, entity[e])
    } else {
        (s.panel(poll), list)
    };
    lemma_record(sheet.0, sheet.1, poll, a, b, "Search Ent."@, editor.search_ent@);
}

/// The first `n` mode tools do the same with two tables that agree on
/// their names and bindings.
pub proof fn lemma_mode_tools(
    s: Surface,
    list: Seq<Sketch>,
    poll: &Poll,
    a: &Asset,
    b: &Asset,
    user: User,
    widget: crate::world::Widget,
    n: int,
)
    requires
        0 <= n <= 6,
        same_tips(a, b),
        same_bindings(a, b, user),
    ensures
        s.mode_tools(list, poll, a, user, widget, n) == s.mode_tools(list, poll, b, user, widget, n),
    decreases n,
{
    if n > 0 {
        lemma_mode_tools(s, list, poll, a, b, user, widget, n - 1);
        let before = s.mode_tools(list, poll, a, user, widget, n - 1);
        let k = n - 1;
        lemma_widget(
            before.0,
            before.1,
            poll,
            a,
            b,
            Vector2 { x: (8 * UNIT + 44 * UNIT * k) as i64, y: 12000 },
            Surface::mode_name(k),
            Surface::mode_icon(k),
            Surface::mode_input(user, k),
            before.2 != Surface::mode(k),
        );
    }
}

/// A tool that is no mode does the same with two tables that agree on
/// its name and binding.
pub proof fn lemma_action_tool(
    s: Surface,
    list: Seq<Sketch>,
    poll: &Poll,
    a: &Asset,
    b: &Asset,
    user: User,
    j: int,
)
    requires
        0 <= j < 5,
        same_tips(a, b),
        same_bindings(a, b, user),
    ensures
        s.action_tool(list, poll, a, user, j) == s.action_tool(list, poll, b, user, j),
{
    lemma_widget(
        s,
        list,
        poll,
        a,
        b,
        Vector2 { x: saturate(poll.screen.x - 220 * UNIT + 44 * UNIT * j) as i64, y: 12000 },
        Surface::action_name(j),
        Surface::action_icon(j),
        Surface::action_input(user, j),
        true,
    );
}

/// The tool bar does the same with two tables that agree on the names
/// and the bindings of the tools.
pub proof fn lemma_draw_widget(
    s: Surface,
    list: Seq<Sketch>,
    poll: &Poll,
    a: &Asset,
    b: &Asset,
    user: User,
    widget: crate::world::Widget,
)
    requires
        same_tips(a, b),
        same_bindings(a, b, user),
    ensures
        s.draw_widget(list, poll, a, user, widget) == s.draw_widget(list, poll, b, user, widget),
{
    lemma_mode_tools(s, list, poll, a, b, user, widget, 6);
    let mode = s.mode_tools(list, poll, a, user, widget, 6);
    lemma_action_tool(mode.0, mode.1, poll, a, b, user, 0);
    let t0 = mode.0.action_tool(mode.1, poll, a, user, 0);
    lemma_action_tool(t0.0, t0.1, poll, a, b, user, 1);
    let t1 = t0.0.action_tool(t0.1, poll, a, user, 1);
    lemma_action_tool(t1.0, t1.1, poll, a, b, user, 2);
    let t2 = t1.0.action_tool(t1.1, poll, a, user, 2);
    lemma_action_tool(t2.0, t2.1, poll, a, b, user, 3);
    let t3 = t2.0.action_tool(t2.1, poll, a, user, 3);
    lemma_action_tool(t3.0, t3.1, poll, a, b, user, 4);
}

/// The tools that choose the panel do the same with two tables that
/// agree on their names and bindings.
pub proof fn lemma_menu_tools(
    s: Surface,
    list: Seq<Sketch>,
    poll: &Poll,
    a: &Asset,
    b: &Asset,
    user: User,
    menu: bool,
)
    requires
        same_tips(a, b),
        same_bindings(a, b, user),
    ensures
        s.menu_tools(list, poll, a, user, menu) == s.menu_tools(list, poll, b, user, menu),
{
    let at = Vector2 {
        x: saturate(poll.screen.x - crate::window::EDIT_SHAPE + 12 * UNIT) as i64,
        y: (crate::window::TOOL_SHAPE + 16 * UNIT) as i64,
    };
    lemma_widget(s, list, poll, a, b, at, "Texture"@, Picture::Texture, user.texture, !menu);
    let texture = s.widget(list, poll, a, at, "Texture"@, Picture::Texture, user.texture, !menu);
    lemma_widget(
        texture.0,
        texture.1,
        poll,
        a,
        b,
        Vector2 {
            x: saturate(poll.screen.x - crate::window::EDIT_SHAPE + 56 * UNIT) as i64,
            y: (crate::window::TOOL_SHAPE + 16 * UNIT) as i64,
        },
        "Entity"@,
        Picture::Entity,
        user.entity,
        texture.2 || menu,
    );
}

/// The preview and its hints are drawn the same with two tables that
/// agree on their texts and on the binding that the hints show.
pub proof fn lemma_preview(list: Seq<Sketch>, poll: &Poll, a: &Asset, b: &Asset, user: User)
    requires
        same_tips(a, b),
        same_bindings(a, b, user),
    ensures
        Surface::hints(Surface::preview(list, poll, a), poll, a) == Surface::hints(
            Surface::preview(list, poll, b),
            poll,
            b,
        ),
{
    let hint = Some(Surface::hint_input());
    assert(Surface::preview(list, poll, a) == Surface::preview(list, poll, b));
    let l0 = Surface::preview(list, poll, a);
    lemma_tip(l0, a, b, poll.screen, Surface::hint_point(poll, 3), "Shift"@, hint);
    let l1 = Window::tip_drawn(l0, a, poll.screen, Surface::hint_point(poll, 3), "Shift"@, hint);
    lemma_tip(l1, a, b, poll.screen, Surface::hint_point(poll, 4), "Scale"@, hint);
    let l2 = Window::tip_drawn(l1, a, poll.screen, Surface::hint_point(poll, 4), "Scale"@, hint);
    lemma_tip(l2, a, b, poll.screen, Surface::hint_point(poll, 5), "Angle"@, hint);
    let l3 = Window::tip_drawn(l2, a, poll.screen, Surface::hint_point(poll, 5), "Angle"@, hint);
    lemma_tip(l3, a, b, poll.screen, Surface::hint_point(poll, 6), "Reset"@, hint);
}

/// The tip that the shelf asks for, if any, bears the name under which
/// one of the textures shows.
pub proof fn lemma_shelf_tip(
    shelf: Shelf,
    poll: &Poll,
    scroll: Vector2,
    search: Seq<char>,
    path: Seq<char>,
    name: Seq<Seq<char>>,
    n: int,
)
    requires
        0 <= n <= name.len(),
        shelf.tip is None,
    ensures
        Surface::swatches(shelf, poll, scroll, search, path, name, n).tip matches Some(tip)
            ==> exists|k: int| 0 <= k < n && tip.1 == replaced(#[trigger] name[k], path, ""@),
    decreases n,
{
    if n > 0 {
        lemma_shelf_tip(shelf, poll, scroll, search, path, name, n - 1);
        let before = Surface::swatches(shelf, poll, scroll, search, path, name, n - 1);
        let after = Surface::swatches(shelf, poll, scroll, search, path, name, n);
        if after.tip is Some {
            let tip = after.tip.unwrap();
            if after.tip == before.tip {
                let k = choose|k: int|
                    0 <= k < n - 1 && tip.1 == replaced(#[trigger] name[k], path, ""@);
                assert(0 <= k < n && tip.1 == replaced(name[k], path, ""@));
            } else {
                assert(tip.1 == replaced(name[n - 1], path, ""@));
            }
        }
    }
}

/// The panel of textures does the same, and leaves the same, with two
/// tables that agree on what the editor shows.
pub proof fn lemma_texture_panel(
    s: Surface,
    list: Seq<Sketch>,
    poll: &Poll,
    a: &Asset,
    b: &Asset,
    editor: Editor,
)
    requires
        enough(a, b, editor, poll),
    ensures
        s.texture_panel(list, poll, a, editor) == s.texture_panel(list, poll, b, editor),
        forall|after: Editor|
            s.texture_panel_left(list, poll, a, editor, after) == s.texture_panel_left(
                list,
                poll,
                b,
                editor,
                after,
            ),
{
    let name = editor.asset.names();
    let path = editor.game.path@;
    lemma_preview(list, poll, a, b, editor.user);
    let head = Surface::hints(Surface::preview(list, poll, a), poll, a);
    let start = s.at(
        Vector2 {
            x: saturate(Surface::pin(poll).x + 12 * UNIT) as i64,
            y: saturate(Surface::pin(poll).y + 160 * UNIT) as i64,
        },
    );
    let rule = start.separator(
        head,
        Vector2 { x: (crate::window::EDIT_SHAPE - 24 * UNIT) as i64, y: 2000 },
    );
    lemma_record(rule.0, rule.1, poll, a, b, "Search Tex."@, editor.search_tex@);
    let field = rule.0.record(rule.1, poll, a, "Search Tex."@, editor.search_tex@);
    let open = field.0.scroll_begin(field.1, "##Texture"@, field.0.list_place(poll));
    let first = Shelf { surface: open.0, list: open.1, count: 0, tip: None, paint: None };
    lemma_shelf_tip(first, poll, open.2, field.2, path, name, name.len() as int);
    let shelf = Surface::swatches(first, poll, open.2, field.2, path, name, name.len() as int);
    if shelf.tip is Some {
        let tip = shelf.tip.unwrap();
        let k = choose|k: int|
            0 <= k < name.len() && tip.1 == replaced(#[trigger] name[k], path, ""@);
        assert(name[k] == editor.asset.texture[k]@);
        assert(same(a, b, tip.1));
        let close = shelf.surface.scroll_end(
            shelf.list,
            poll,
            "##Texture"@,
            field.0.list_place(poll),
        );
        lemma_tip(close.1, a, b, poll.screen, tip.0, tip.1, None);
    }
}

/// A frame of the editor does the same, and leaves the same of the
/// editor, with two tables that agree on every text that the editor
/// lists: what is listed is enough.
pub proof fn lemma_enough(
    s: Surface,
    list: Seq<Sketch>,
    poll: &Poll,
    a: &Asset,
    b: &Asset,
    editor: Editor,
)
    requires
        enough(a, b, editor, poll),
    ensures
        s.success(list, poll, a, editor) == s.success(list, poll, b, editor),
        forall|after: Editor|
            s.begun().shown_panel_left(Surface::cards(list, poll), poll, a, editor, after)
                == s.begun().shown_panel_left(Surface::cards(list, poll), poll, b, editor, after),
        forall|e: int, at: Vector2, canvas: Seq<Sketch>|
            0 <= e < editor.world.entity.len() ==> #[trigger] editor.world.entity[e].label(
                canvas,
                a,
                at,
            ) == editor.world.entity[e].label(canvas, b, at),
{
    let cards = Surface::cards(list, poll);
    lemma_entity_panel(s.begun(), cards, poll, a, b, editor);
    lemma_texture_panel(s.begun(), cards, poll, a, b, editor);
    let panel = s.begun().shown_panel(cards, poll, a, editor);
    lemma_draw_widget(panel.0, panel.1, poll, a, b, editor.user, editor.widget);
    let tools = panel.0.draw_widget(panel.1, poll, a, editor.user, editor.widget);
    lemma_menu_tools(tools.0, tools.1, poll, a, b, editor.user, editor.menu);
    assert forall|e: int, at: Vector2, canvas: Seq<Sketch>|
        0 <= e < editor.world.entity.len() implies #[trigger] editor.world.entity[e].label(
        canvas,
        a,
        at,
    ) == editor.world.entity[e].label(canvas, b, at) by {
        assert(same_entity(a, b, editor.world.entity[e], poll));
    }
}

/// Two tables agree on a list with one more text just when they agree
/// on the list and on the text.
proof fn lemma_agree_push(a: &Asset, b: &Asset, list: Seq<Seq<char>>, text: Seq<char>)
    ensures
        agree(a, b, list.push(text)) == (agree(a, b, list) && same(a, b, text)),
{
    let more = list.push(text);
    if agree(a, b, more) {
        assert(more[list.len() as int] == text);
        assert forall|i: int| 0 <= i < list.len() implies same(a, b, #[trigger] list[i]) by {
            assert(more[i] == list[i]);
        }
    }
    if agree(a, b, list) && same(a, b, text) {
        assert forall|i: int| 0 <= i < more.len() implies same(a, b, #[trigger] more[i]) by {
            if i < list.len() {
                assert(more[i] == list[i]);
            }
        }
    }
}

/// Two tables agree on a list with the names of the tools and the texts
/// of the tips behind it just when they agree on the list and on those.
proof fn lemma_agree_tips(a: &Asset, b: &Asset, list: Seq<Seq<char>>)
    ensures
        agree(a, b, tips(list)) == (agree(a, b, list) && same_tips(a, b)),
{
    lemma_agree_push(a, b, list, "Position"@);
    let l0 = list.push("Position"@);
    lemma_agree_push(a, b, l0, "Rotation"@);
    let l1 = l0.push("Rotation"@);
    lemma_agree_push(a, b, l1, "Scale"@);
    let l2 = l1.push("Scale"@);
    lemma_agree_push(a, b, l2, "Vertex"@);
    let l3 = l2.push("Vertex"@);
    lemma_agree_push(a, b, l3, "Edge"@);
    let l4 = l3.push("Edge"@);
    lemma_agree_push(a, b, l4, "Face"@);
    let l5 = l4.push("Face"@);
    lemma_agree_push(a, b, l5, "User"@);
    let l6 = l5.push("User"@);
    lemma_agree_push(a, b, l6, "Reload"@);
    let l7 = l6.push("Reload"@);
    lemma_agree_push(a, b, l7, "Import"@);
    let l8 = l7.push("Import"@);
    lemma_agree_push(a, b, l8, "Export"@);
    let l9 = l8.push("Export"@);
    lemma_agree_push(a, b, l9, "Exit"@);
    let l10 = l9.push("Exit"@);
    lemma_agree_push(a, b, l10, "Texture"@);
    let l11 = l10.push("Texture"@);
    lemma_agree_push(a, b, l11, "Entity"@);
    let l12 = l11.push("Entity"@);
    lemma_agree_push(a, b, l12, "0, 0"@);
    let l13 = l12.push("0, 0"@);
    lemma_agree_push(a, b, l13, "Shift"@);
    let l14 = l13.push("Shift"@);
    lemma_agree_push(a, b, l14, "Angle"@);
    let l15 = l14.push("Angle"@);
    lemma_agree_push(a, b, l15, "Reset"@);
}

/// Two tables agree on a list with the names of the keys of a binding
/// behind it just when they agree on the list and on those names.
proof fn lemma_agree_binding(a: &Asset, b: &Asset, list: Seq<Seq<char>>, input: Input)
    ensures
        agree(a, b, binding(list, input)) == (agree(a, b, list) && same_input(a, b, input)),
{
    match input.modify {
        Some(modify) => {
            lemma_agree_push(a, b, list, modify.label());
            lemma_agree_push(a, b, list.push(modify.label()), input.button.label());
        },
        None => {
            lemma_agree_push(a, b, list, input.button.label());
        },
    }
}

/// The same, of every binding that a tip can show.
proof fn lemma_agree_bindings(a: &Asset, b: &Asset, list: Seq<Seq<char>>, user: User)
    ensures
        agree(a, b, bindings(list, user)) == (agree(a, b, list) && same_bindings(a, b, user)),
{
    lemma_agree_binding(a, b, list, user.position);
    let l0 = binding(list, user.position);
    lemma_agree_binding(a, b, l0, user.rotation);
    let l1 = binding(l0, user.rotation);
    lemma_agree_binding(a, b, l1, user.scale);
    let l2 = binding(l1, user.scale);
    lemma_agree_binding(a, b, l2, user.vertex);
    let l3 = binding(l2, user.vertex);
    lemma_agree_binding(a, b, l3, user.edge);
    let l4 = binding(l3, user.edge);
    lemma_agree_binding(a, b, l4, user.face);
    let l5 = binding(l4, user.face);
    lemma_agree_binding(a, b, l5, user.user);
    let l6 = binding(l5, user.user);
    lemma_agree_binding(a, b, l6, user.reload);
    let l7 = binding(l6, user.reload);
    lemma_agree_binding(a, b, l7, user.import);
    let l8 = binding(l7, user.import);
    lemma_agree_binding(a, b, l8, user.export);
    let l9 = binding(l8, user.export);
    lemma_agree_binding(a, b, l9, user.exit);
    let l10 = binding(l9, user.exit);
    lemma_agree_binding(a, b, l10, user.texture);
    let l11 = binding(l10, user.texture);
    lemma_agree_binding(a, b, l11, user.entity);
    let l12 = binding(l11, user.entity);
    lemma_agree_binding(a, b, l12, Input { modify: None, button: Key::Mouse(MouseButton::Left) });
}

/// Two tables agree on a list with a text behind it, as it stands and
/// as the keys would leave it, just when they agree on the list and on
/// both.
proof fn lemma_agree_edited(
    a: &Asset,
    b: &Asset,
    list: Seq<Seq<char>>,
    text: Seq<char>,
    poll: &Poll,
)
    ensures
        agree(a, b, edited(list, text, poll)) == (agree(a, b, list) && same_edited(
            a,
            b,
            text,
            poll,
        )),
{
    lemma_agree_push(a, b, list, text);
    lemma_agree_push(a, b, list.push(text), Window::typed(text, poll));
}

/// The same, of a number as it is written.
proof fn lemma_agree_number(a: &Asset, b: &Asset, list: Seq<Seq<char>>, value: i64, poll: &Poll)
    ensures
        agree(a, b, number(list, value, poll)) == (agree(a, b, list) && same_number(
            a,
            b,
            value,
            poll,
        )),
{
    lemma_agree_push(a, b, list, written(value as int));
    lemma_agree_push(
        a,
        b,
        list.push(written(value as int)),
        written(Window::retyped(value, poll) as int),
    );
}

/// The same, of the three coordinates of a vector.
proof fn lemma_agree_vector(
    a: &Asset,
    b: &Asset,
    list: Seq<Seq<char>>,
    value: Vector3,
    poll: &Poll,
)
    ensures
        agree(a, b, vector(list, value, poll)) == (agree(a, b, list) && same_vector(
            a,
            b,
            value,
            poll,
        )),
{
    lemma_agree_number(a, b, list, value.x, poll);
    lemma_agree_number(a, b, number(list, value.x, poll), value.y, poll);
    lemma_agree_number(a, b, number(number(list, value.x, poll), value.y, poll), value.z, poll);
}

/// The same, of what a custom field holds.
proof fn lemma_agree_field(
    a: &Asset,
    b: &Asset,
    list: Seq<Seq<char>>,
    data: EntityData,
    poll: &Poll,
)
    ensures
        agree(a, b, field(list, data, poll)) == (agree(a, b, list) && same_field(
            a,
            b,
            data,
            poll,
        )),
{
    match data.kind {
        Kind::Number(value) => lemma_agree_number(a, b, list, value, poll),
        Kind::Text(value) => lemma_agree_edited(a, b, list, value@, poll),
        _ => {},
    }
}

/// The same, of what the first `n` custom fields hold.
proof fn lemma_agree_fields(
    a: &Asset,
    b: &Asset,
    list: Seq<Seq<char>>,
    data: Seq<EntityData>,
    poll: &Poll,
    n: int,
)
    requires
        0 <= n <= data.len(),
    ensures
        agree(a, b, fields(list, data, poll, n)) == (agree(a, b, list) && forall|k: int|
            0 <= k < n ==> same_field(a, b, #[trigger] data[k], poll)),
    decreases n,
{
    if n > 0 {
        lemma_agree_fields(a, b, list, data, poll, n - 1);
        lemma_agree_field(a, b, fields(list, data, poll, n - 1), data[n - 1], poll);
    }
}

/// The same, of what an entity shows.
proof fn lemma_agree_entity(a: &Asset, b: &Asset, list: Seq<Seq<char>>, item: Entity, poll: &Poll)
    ensures
        agree(a, b, entity(list, item, poll)) == (agree(a, b, list) && same_entity(
            a,
            b,
            item,
            poll,
        )),
{
    lemma_agree_push(a, b, list, item.meta.name@);
    let l0 = list.push(item.meta.name@);
    lemma_agree_push(a, b, l0, item.meta.info@);
    let l1 = l0.push(item.meta.info@);
    lemma_agree_vector(a, b, l1, item.position, poll);
    let l2 = vector(l1, item.position, poll);
    lemma_agree_vector(a, b, l2, item.rotation, poll);
    let l3 = vector(l2, item.rotation, poll);
    lemma_agree_vector(a, b, l3, item.scale, poll);
    let l4 = vector(l3, item.scale, poll);
    lemma_agree_fields(a, b, l4, item.meta.data@, poll, item.meta.data.len() as int);
}

/// The same, of what the first `n` entities show.
proof fn lemma_agree_entities(
    a: &Asset,
    b: &Asset,
    list: Seq<Seq<char>>,
    item: Seq<Entity>,
    poll: &Poll,
    n: int,
)
    requires
        0 <= n <= item.len(),
    ensures
        agree(a, b, entities(list, item, poll, n)) == (agree(a, b, list) && forall|e: int|
            0 <= e < n ==> same_entity(a, b, #[trigger] item[e], poll)),
    decreases n,
{
    if n > 0 {
        lemma_agree_entities(a, b, list, item, poll, n - 1);
        lemma_agree_entity(a, b, entities(list, item, poll, n - 1), item[n - 1], poll);
    }
}

/// The same, of the names under which the first `n` textures show.
proof fn lemma_agree_textures(
    a: &Asset,
    b: &Asset,
    list: Seq<Seq<char>>,
    name: Seq<String>,
    path: Seq<char>,
    n: int,
)
    requires
        0 <= n <= name.len(),
    ensures
        agree(a, b, textures(list, name, path, n)) == (agree(a, b, list) && forall|k: int|
            0 <= k < n ==> same(a, b, replaced((#[trigger] name[k])@, path, ""@))),
    decreases n,
{
    if n > 0 {
        lemma_agree_textures(a, b, list, name, path, n - 1);
        lemma_agree_push(
            a,
            b,
            textures(list, name, path, n - 1),
            replaced(name[n - 1]@, path, ""@),
        );
    }
}

/// Two tables agree on every text that a frame of the editor can ask
/// the extent of just when they agree on every text that the editor
/// lists.
pub proof fn lemma_listed(a: &Asset, b: &Asset, editor: Editor, poll: &Poll)
    ensures
        agree(a, b, editor.measured(poll)) == enough(a, b, editor, poll),
{
    let l0 = Seq::<Seq<char>>::empty();
    assert(agree(a, b, l0));
    lemma_agree_tips(a, b, l0);
    let l1 = tips(l0);
    lemma_agree_bindings(a, b, l1, editor.user);
    let l2 = bindings(l1, editor.user);
    lemma_agree_edited(a, b, l2, editor.search_ent@, poll);
    let l3 = edited(l2, editor.search_ent@, poll);
    lemma_agree_edited(a, b, l3, editor.search_tex@, poll);
    let l4 = edited(l3, editor.search_tex@, poll);
    lemma_agree_textures(
        a,
        b,
        l4,
        editor.asset.texture@,
        editor.game.path@,
        editor.asset.texture.len() as int,
    );
    let l5 = textures(
        l4,
        editor.asset.texture@,
        editor.game.path@,
        editor.asset.texture.len() as int,
    );
    lemma_agree_entities(a, b, l5, editor.world.entity@, poll, editor.world.entity.len() as int);
}

/// What the editor lists is enough: with two tables that give every
/// listed text the same extent, a frame draws the same, answers the
/// same and leaves the same of the editor, and every entity is labelled
/// the same.
pub proof fn lemma_text_is_enough(
    s: Surface,
    list: Seq<Sketch>,
    poll: &Poll,
    a: &Asset,
    b: &Asset,
    editor: Editor,
)
    requires
        agree(a, b, editor.measured(poll)),
    ensures
        s.success(list, poll, a, editor) == s.success(list, poll, b, editor),
        forall|after: Editor|
            s.begun().shown_panel_left(Surface::cards(list, poll), poll, a, editor, after)
                == s.begun().shown_panel_left(Surface::cards(list, poll), poll, b, editor, after),
        forall|e: int, at: Vector2, canvas: Seq<Sketch>|
            0 <= e < editor.world.entity.len() ==> #[trigger] editor.world.entity[e].label(
                canvas,
                a,
                at,
            ) == editor.world.entity[e].label(canvas, b, at),
{
    lemma_listed(a, b, editor, poll);
    lemma_enough(s, list, poll, a, b, editor);
}

} // verus!
