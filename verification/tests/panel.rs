use mallet::draw::{Art, Canvas, Draw, Picture};
use mallet::editor::{Editor, Meta};
use mallet::game::{Game, Info};
use mallet::gizmo::Data;
use mallet::input::{Input, Poll, Reading, Signal, User};
use mallet::key::{Key, KeyboardKey, MouseButton};
use mallet::panel::Action;
use mallet::shape::{BoundingBox, Color, Rectangle, Vector2, Vector3};
use mallet::status::{InitialState, Status, SuccessState};
use mallet::window::{Asset, Measure, Window};
use mallet::world::{Entity, EntityData, EntityMeta, Kind, Widget};

fn meta(name: &str) -> EntityMeta {
    EntityMeta {
        name: name.to_string(),
        info: "An entity.".to_string(),
        data: vec![
            EntityData {
                name: "solid".to_string(),
                info: "Solid".to_string(),
                kind: Kind::Bool(false),
            },
            EntityData {
                name: "power".to_string(),
                info: "Power".to_string(),
                kind: Kind::Number(2000),
            },
            EntityData {
                name: "label".to_string(),
                info: "Label".to_string(),
                kind: Kind::Text("ab".to_string()),
            },
            EntityData {
                name: "list".to_string(),
                info: "List".to_string(),
                kind: Kind::Other("[1,2]".to_string()),
            },
        ],
        shape: BoundingBox::new(Vector3::new(-500, -500, -500), Vector3::new(500, 500, 500)),
        call: None,
    }
}

fn game(name: &str) -> Game {
    Game::new(Info { name: name.to_string() }, None, "game/".to_string())
}

fn editor() -> Editor {
    Editor::new(
        Vector2::new(1024000, 768000),
        game("Quake"),
        User::default(),
        Meta {
            entity: vec![meta("light"), meta("lamp"), meta("door")],
            texture: vec![
                "game/wall.png".to_string(),
                "game/door.png".to_string(),
                "game/water.png".to_string(),
            ],
        },
    )
}

fn frame(x: i64, y: i64, before: bool, now: bool) -> Poll {
    let mut poll = Poll::new();
    poll.mouse = Vector2::new(x, y);
    poll.screen = Vector2::new(1024000, 768000);
    poll.reading = vec![
        Reading {
            key: Key::Mouse(MouseButton::Left),
            signal: Signal { before, now, repeat: false },
        },
    ];
    poll
}

fn with_key(mut poll: Poll, key: KeyboardKey) -> Poll {
    poll.reading.push(Reading {
        key: Key::Keyboard(key),
        signal: Signal { before: false, now: true, repeat: false },
    });
    poll
}

fn click(window: &mut Window, x: i64, y: i64, mut act: impl FnMut(&mut Window, &Poll)) {
    act(window, &frame(x, y, false, true));
    act(window, &frame(x, y, true, false));
}

fn texts(draw: &Canvas) -> Vec<String> {
    draw.list
        .iter()
        .filter_map(|d| match d {
            Draw::Text { text, .. } => Some(text.clone()),
            _ => None,
        })
        .collect()
}

#[test]
fn a_mode_tool_sets_the_mode() {
    let asset = Asset::new();
    let mut editor = editor();
    let mut window = Window::new();
    click(&mut window, 60000, 20000, |window, poll| {
        let mut draw = Canvas::new();
        window.begin();
        let action = window.draw_widget(&mut draw, poll, &asset, &mut editor);
        assert_eq!(action, Action::none());
    });
    assert_eq!(editor.widget, Widget::Rotation);
    click(&mut window, 236000, 20000, |window, poll| {
        let mut draw = Canvas::new();
        window.begin();
        window.draw_widget(&mut draw, poll, &asset, &mut editor);
    });
    assert_eq!(editor.widget, Widget::Face);
    assert_eq!(window.count, 11);
    assert_eq!(window.gizmo.len(), 11);
}

#[test]
fn the_tool_of_the_mode_that_is_on_cannot_be_clicked() {
    let asset = Asset::new();
    let mut editor = editor();
    editor.widget = Widget::Scale;
    let mut window = Window::new();
    click(&mut window, 100000, 20000, |window, poll| {
        let mut draw = Canvas::new();
        window.begin();
        window.draw_widget(&mut draw, poll, &asset, &mut editor);
    });
    assert_eq!(editor.widget, Widget::Scale);
}

#[test]
fn the_bindings_of_the_modes_set_the_mode() {
    let asset = Asset::new();
    let mut editor = editor();
    let mut window = Window::new();
    let mut draw = Canvas::new();
    let keys = [
        (KeyboardKey::Four, Widget::Vertex),
        (KeyboardKey::Five, Widget::Edge),
        (KeyboardKey::Six, Widget::Face),
        (KeyboardKey::One, Widget::Position),
        (KeyboardKey::Two, Widget::Rotation),
        (KeyboardKey::Three, Widget::Scale),
    ];
    for (key, mode) in keys {
        window.begin();
        window.draw_widget(&mut draw, &with_key(frame(0, 0, false, false), key), &asset, &mut editor);
        assert_eq!(editor.widget, mode);
    }
    window.begin();
    let poll = with_key(with_key(frame(0, 0, false, false), KeyboardKey::Two), KeyboardKey::Five);
    window.draw_widget(&mut draw, &poll, &asset, &mut editor);
    assert_eq!(editor.widget, Widget::Edge);
}

#[test]
fn the_other_tools_are_reported() {
    let asset = Asset::new();
    let mut editor = editor();
    let mut window = Window::new();
    let mut fired = Action::none();
    click(&mut window, 860000, 20000, |window, poll| {
        let mut draw = Canvas::new();
        window.begin();
        fired = window.draw_widget(&mut draw, poll, &asset, &mut editor);
    });
    assert_eq!(
        fired,
        Action { user: false, reload: true, import: false, export: false, exit: false }
    );
    let mut poll = with_key(frame(0, 0, false, false), KeyboardKey::B);
    poll.reading.push(Reading {
        key: Key::Keyboard(KeyboardKey::LeftControl),
        signal: Signal { before: true, now: true, repeat: false },
    });
    let mut draw = Canvas::new();
    window.begin();
    let fired = window.draw_widget(&mut draw, &poll, &asset, &mut editor);
    assert_eq!(
        fired,
        Action { user: false, reload: false, import: false, export: false, exit: true }
    );
    assert_eq!(editor.widget, Widget::Position);
}

#[test]
fn the_tool_bar_draws_eleven_tools() {
    let asset = Asset::new();
    let mut editor = editor();
    let mut window = Window::new();
    let mut draw = Canvas::new();
    window.draw_widget(&mut draw, &frame(0, 500000, false, false), &asset, &mut editor);
    let icons: Vec<(Picture, i64)> = draw
        .list
        .iter()
        .filter_map(|d| match d {
            Draw::Image { art: Art::Icon(picture), shape } => Some((*picture, shape.x)),
            _ => None,
        })
        .collect();
    assert_eq!(
        icons,
        vec![
            (Picture::Position, 12000),
            (Picture::Rotation, 56000),
            (Picture::Scale, 100000),
            (Picture::Vertex, 144000),
            (Picture::Edge, 188000),
            (Picture::Face, 232000),
            (Picture::User, 808000),
            (Picture::Reload, 852000),
            (Picture::Import, 896000),
            (Picture::Export, 940000),
            (Picture::Exit, 984000),
        ]
    );
    assert_eq!(draw.list.len(), 44);
}

#[test]
fn a_drawer_for_a_vector_shows_its_coordinates_while_open() {
    let asset = Asset::new();
    let mut window = Window::new();
    let mut value = Vector3::new(1000, 2000, 3000);
    let mut draw = Canvas::new();
    window.triple(&mut draw, &frame(500000, 0, false, false), &asset, "Position", &mut value);
    assert_eq!(texts(&draw), vec!["Position"]);
    assert_eq!(window.point, Vector2::new(0, 32000));
    Data::get(&mut window, "Position").active = true;
    window.begin();
    let mut draw = Canvas::new();
    let mut poll = frame(5000, 70000, false, false);
    poll.character = Some('5');
    window.triple(&mut draw, &poll, &asset, "Position", &mut value);
    assert_eq!(texts(&draw), vec!["Position", "1", "X", "2", "Y", "3", "Z"]);
    assert_eq!(value, Vector3::new(1000, 25000, 3000));
    assert_eq!(window.point, Vector2::new(0, 128000));
    assert_eq!(window.count, 4);
}

#[test]
fn a_custom_field_has_the_control_of_its_kind() {
    let asset = Asset::new();
    let mut field = meta("light").data;
    let mut window = Window::new();
    click(&mut window, 5000, 5000, |window, poll| {
        let mut draw = Canvas::new();
        window.begin();
        window.custom(&mut draw, poll, &asset, &mut field[0]);
    });
    assert_eq!(field[0].kind, Kind::Bool(true));
    let mut poll = frame(5000, 5000, false, false);
    poll.character = Some('1');
    let mut draw = Canvas::new();
    window.begin();
    window.custom(&mut draw, &poll, &asset, &mut field[1]);
    assert_eq!(field[1].kind, Kind::Number(21000));
    window.begin();
    window.custom(&mut draw, &poll, &asset, &mut field[2]);
    assert_eq!(field[2].kind, Kind::Text("ab1".to_string()));
    window.begin();
    let count = draw.list.len();
    window.custom(&mut draw, &poll, &asset, &mut field[3]);
    assert_eq!(field[3].kind, Kind::Other("[1,2]".to_string()));
    assert_eq!(draw.list.len(), count);
    assert_eq!(window.count, 0);
    assert_eq!(field[1].name, "power");
    assert_eq!(field[1].info, "Power");
}

#[test]
fn the_sheet_of_an_entity() {
    let asset = Asset {
        measure: vec![Measure { text: "An entity.".to_string(), shape: Vector2::new(90000, 24000) }],
    };
    let mut entity = Entity::new_from_lua(meta("light"));
    let mut window = Window::new();
    window.point(Vector2::new(636000, 120000));
    let mut draw = Canvas::new();
    let poll = frame(0, 0, false, false);
    window.sheet(&mut draw, &poll, &asset, &mut entity);
    assert_eq!(draw.list[0], Draw::Clip { shape: Rectangle::new(636000, 120000, 376000, 232000) });
    assert_eq!(
        texts(&draw),
        vec!["An entity.", "Position", "Rotation", "Scale", "Solid", "2", "Power", "ab", "Label"]
    );
    assert_eq!(entity, Entity::new_from_lua(meta("light")));
    assert_eq!(window.shape, None);
    assert_eq!(window.point, Vector2::new(636000, 370000));
    assert_eq!(Data::get(&mut window, "##Entity Data").scroll_shape, 224000);
    assert_eq!(window.count, 8);
}

#[test]
fn the_catalogue_offers_the_kinds_that_are_searched_for() {
    let list = vec![meta("light"), meta("lamp"), meta("door"), meta("ladder")];
    let mut window = Window::new();
    let mut draw = Canvas::new();
    window.point(Vector2::new(636000, 200000));
    let chosen = window.catalog(&mut draw, &frame(0, 0, false, false), "la", &list);
    assert!(chosen.is_empty());
    assert_eq!(texts(&draw), vec!["lamp", "ladder"]);
    assert_eq!(draw.list[0], Draw::Clip { shape: Rectangle::new(636000, 200000, 376000, 552000) });
    assert_eq!(
        draw.list[2],
        Draw::Round {
            shape: Rectangle::new(636000, 200000, 376000, 32000),
            color: Color::new(51, 103, 191, 255),
        }
    );
    let mut chosen = vec![];
    click(&mut window, 700000, 250000, |window, poll| {
        let mut draw = Canvas::new();
        window.begin();
        window.point(Vector2::new(636000, 200000));
        chosen = window.catalog(&mut draw, poll, "la", &list);
    });
    assert_eq!(chosen, vec![3]);
}

#[test]
fn a_kind_that_is_asked_for_is_added_to_the_scene() {
    let asset = Asset::new();
    let mut editor = editor();
    let mut window = Window::new();
    click(&mut window, 700000, 200000, |window, poll| {
        let mut draw = Canvas::new();
        window.begin();
        window.draw_entity(&mut draw, poll, &asset, &mut editor);
    });
    assert_eq!(editor.world.entity.len(), 1);
    assert_eq!(editor.world.entity[0], Entity::new_from_lua(meta("lamp")));
    assert_eq!(editor.world.brush.len(), 1);
}

#[test]
fn the_panel_of_entities_without_an_entity_in_focus() {
    let asset = Asset::new();
    let mut editor = editor();
    editor.world.entity.push(Entity::new_from_lua(meta("lamp")));
    let mut window = Window::new();
    let mut draw = Canvas::new();
    window.draw_entity(&mut draw, &frame(0, 0, false, false), &asset, &mut editor);
    assert_eq!(texts(&draw), vec!["", "Search Ent.", "light", "lamp", "door"]);
    assert_eq!(
        draw.list[4],
        Draw::Clip { shape: Rectangle::new(636000, 152000, 376000, 600000) }
    );
    assert_eq!(window.point, Vector2::new(636000, 756000));
}

#[test]
fn the_panel_of_entities_shows_the_first_entity_in_focus() {
    let asset = Asset::new();
    let mut editor = editor();
    editor.world.entity.push(Entity::new_from_lua(meta("lamp")));
    editor.world.entity.push(Entity::new_from_lua(meta("light")));
    editor.world.entity.push(Entity::new_from_lua(meta("door")));
    editor.world.entity[1].focus = true;
    editor.world.entity[2].focus = true;
    editor.world.entity[1].meta.info = "The first.".to_string();
    let mut window = Window::new();
    Data::get(&mut window, "Position").active = true;
    let mut draw = Canvas::new();
    let mut poll = frame(640000, 170000, false, false);
    poll.character = Some('7');
    window.draw_entity(&mut draw, &poll, &asset, &mut editor);
    assert_eq!(texts(&draw)[0], "The first.");
    assert_eq!(editor.world.entity[1].position, Vector3::new(7000, 0, 0));
    assert_eq!(editor.world.entity[2].position, Vector3::zero());
    assert_eq!(editor.world.entity[0], Entity::new_from_lua(meta("lamp")));
    assert_eq!(editor.world.entity.len(), 3);
}

#[test]
fn the_search_narrows_the_catalogue_in_the_same_frame() {
    let asset = Asset::new();
    let mut editor = editor();
    editor.search_ent = "l".to_string();
    let mut window = Window::new();
    let mut draw = Canvas::new();
    let mut poll = frame(640000, 125000, false, false);
    poll.character = Some('a');
    window.draw_entity(&mut draw, &poll, &asset, &mut editor);
    assert_eq!(editor.search_ent, "la");
    assert_eq!(texts(&draw), vec!["l", "Search Ent.", "lamp"]);
}

#[test]
fn the_panel_of_textures_shows_the_shelf() {
    let asset = Asset::new();
    let mut editor = editor();
    let mut window = Window::new();
    let mut draw = Canvas::new();
    window.draw_texture(&mut draw, &frame(0, 0, false, false), &asset, &mut editor);
    let port = Rectangle::new(624000, 120000, 400000, 152000);
    assert_eq!(draw.list[0], Draw::Clip { shape: port });
    assert_eq!(draw.list[1], Draw::Block { shape: port, color: Color::red() });
    assert_eq!(
        draw.list[2],
        Draw::Tile {
            art: Art::Icon(Picture::Default),
            shape: Rectangle::new(624000, 120000, 400000, 400000),
            size: 128000,
        }
    );
    assert_eq!(
        draw.list[3],
        Draw::Frame {
            shape: Rectangle::new(624000, 120000, 128000, 128000),
            thick: 2000,
            color: Color::red(),
        }
    );
    assert_eq!(
        draw.list[4],
        Draw::Circle { center: Vector2::new(620000, 116000), radius: 8000, color: Color::red() }
    );
    assert_eq!(draw.list[5], Draw::Unclip);
    let images: Vec<(String, Rectangle)> = draw
        .list
        .iter()
        .filter_map(|d| match d {
            Draw::Image { art: Art::Named(name), shape } => Some((name.clone(), *shape)),
            _ => None,
        })
        .collect();
    assert_eq!(
        images,
        vec![
            ("game/door.png".to_string(), Rectangle::new(640000, 330000, 56000, 56000)),
            ("game/wall.png".to_string(), Rectangle::new(712000, 330000, 56000, 56000)),
            ("game/water.png".to_string(), Rectangle::new(784000, 330000, 56000, 56000)),
        ]
    );
    assert_eq!(
        window.gizmo.iter().map(|s| s.name.as_str()).collect::<Vec<_>>(),
        vec!["Search Tex.", "##Texture", "##door.png", "##wall.png", "##water.png"]
    );
}

#[test]
fn the_shelf_has_rows_of_five() {
    let asset = Asset::new();
    let mut editor = editor();
    for k in 0..7 {
        editor.asset.set_texture(&format!("game/t{k}.png"));
    }
    editor.search_tex = "t".to_string();
    let mut window = Window::new();
    let mut draw = Canvas::new();
    window.draw_texture(&mut draw, &frame(0, 0, false, false), &asset, &mut editor);
    let places: Vec<(i64, i64)> = draw
        .list
        .iter()
        .filter_map(|d| match d {
            Draw::Image { art: Art::Named(_), shape } => Some((shape.x, shape.y)),
            _ => None,
        })
        .collect();
    assert_eq!(
        places,
        vec![
            (640000, 330000),
            (712000, 330000),
            (784000, 330000),
            (856000, 330000),
            (928000, 330000),
            (640000, 402000),
            (712000, 402000),
        ]
    );
}

#[test]
fn a_texture_that_is_clicked_paints_the_brushes_in_focus() {
    let asset = Asset::new();
    let mut editor = editor();
    editor.world.brush.push(mallet::world::Brush::default());
    editor.world.brush[1].focus = true;
    let mut window = Window::new();
    click(&mut window, 720000, 340000, |window, poll| {
        let mut draw = Canvas::new();
        window.begin();
        window.draw_texture(&mut draw, poll, &asset, &mut editor);
    });
    for face in &editor.world.brush[1].face {
        assert_eq!(face.texture, Some("wall.png".to_string()));
    }
    for face in &editor.world.brush[0].face {
        assert_eq!(face.texture, None);
    }
    assert!(editor.world.check());
}

#[test]
fn a_texture_under_the_pointer_shows_its_name() {
    let asset = Asset {
        measure: vec![Measure { text: "wall.png".to_string(), shape: Vector2::new(80000, 24000) }],
    };
    let mut editor = editor();
    let mut window = Window::new();
    let mut draw = Canvas::new();
    let mut poll = frame(720000, 340000, false, false);
    poll.time = 1000;
    window.draw_texture(&mut draw, &poll, &asset, &mut editor);
    let n = draw.list.len();
    assert_eq!(
        draw.list[n - 2],
        Draw::Round { shape: Rectangle::new(708000, 394000, 88000, 24000), color: Color::black() }
    );
    assert_eq!(
        draw.list[n - 1],
        Draw::Text {
            text: "wall.png".to_string(),
            point: Vector2::new(712000, 394000),
            color: Color::white(),
        }
    );
}

#[test]
fn the_preview_shows_its_hints_under_the_pointer() {
    let asset = Asset::new();
    let mut editor = editor();
    let mut window = Window::new();
    let mut draw = Canvas::new();
    window.draw_texture(&mut draw, &frame(700000, 200000, false, false), &asset, &mut editor);
    assert_eq!(
        texts(&draw)[..8],
        ["Shift", "Mouse Left", "Scale", "Mouse Left", "Angle", "Mouse Left", "Reset", "Mouse Left"]
    );
    assert_eq!(
        draw.list[8],
        Draw::Text { text: "Shift".to_string(), point: Vector2::new(24000, 610000), color: Color::white() }
    );
    let mut draw = Canvas::new();
    window.begin();
    window.draw_texture(&mut draw, &frame(700000, 200000, true, true), &asset, &mut editor);
    assert_eq!(texts(&draw)[0], "0, 0");
    assert_eq!(draw.list[8], Draw::Unclip);
    let hint = Input::new(None, Key::Mouse(MouseButton::Left));
    assert_eq!(hint.button.name(), "Mouse Left");
}

#[test]
fn the_search_narrows_the_shelf() {
    let asset = Asset::new();
    let mut editor = editor();
    editor.search_tex = "w".to_string();
    let mut window = Window::new();
    let mut draw = Canvas::new();
    window.draw_texture(&mut draw, &frame(0, 0, false, false), &asset, &mut editor);
    let images = draw
        .list
        .iter()
        .filter(|d| matches!(d, Draw::Image { art: Art::Named(_), .. }))
        .count();
    assert_eq!(images, 2);
}

#[test]
fn a_frame_of_the_editor() {
    let asset = Asset::new();
    let mut editor = editor();
    let mut window = Window::new();
    let mut status = SuccessState::Main;
    let mut draw = Canvas::new();
    let out = window.success(&mut draw, &frame(0, 0, false, false), &asset, &mut status, &mut editor);
    assert_eq!(out, (None, Action::none()));
    assert_eq!(
        draw.list[..4],
        [
            Draw::FadeAcross {
                shape: Rectangle::new(618000, 0, 6000, 768000),
                left: Color::new(0, 0, 0, 0),
                right: Color::new(0, 0, 0, 99),
            },
            Draw::Block {
                shape: Rectangle::new(624000, 0, 400000, 768000),
                color: Color::new(3, 169, 244, 255),
            },
            Draw::FadeDown {
                shape: Rectangle::new(0, 56000, 1024000, 6000),
                above: Color::new(0, 0, 0, 99),
                below: Color::new(0, 0, 0, 0),
            },
            Draw::Block {
                shape: Rectangle::new(0, 0, 1024000, 56000),
                color: Color::new(3, 169, 244, 255),
            },
        ]
    );
    assert_eq!(status, SuccessState::Main);
    assert!(!editor.menu);
    assert!(texts(&draw).contains(&"Search Ent.".to_string()));
}

#[test]
fn the_panel_tools_choose_the_panel() {
    let asset = Asset::new();
    let mut editor = editor();
    let mut window = Window::new();
    let mut status = SuccessState::Main;
    click(&mut window, 640000, 80000, |window, poll| {
        let mut draw = Canvas::new();
        window.success(&mut draw, poll, &asset, &mut status, &mut editor);
    });
    assert!(editor.menu);
    let mut draw = Canvas::new();
    window.success(&mut draw, &frame(0, 0, false, false), &asset, &mut status, &mut editor);
    assert!(texts(&draw).contains(&"Search Tex.".to_string()));
    assert!(!texts(&draw).contains(&"Search Ent.".to_string()));
    click(&mut window, 690000, 80000, |window, poll| {
        let mut draw = Canvas::new();
        window.success(&mut draw, poll, &asset, &mut status, &mut editor);
    });
    assert!(!editor.menu);
    let mut draw = Canvas::new();
    let poll = with_key(frame(0, 0, false, false), KeyboardKey::Seven);
    window.success(&mut draw, &poll, &asset, &mut status, &mut editor);
    assert!(editor.menu);
    let poll = with_key(frame(0, 0, false, false), KeyboardKey::Eight);
    window.success(&mut draw, &poll, &asset, &mut status, &mut editor);
    assert!(!editor.menu);
}

#[test]
fn a_window_that_is_asked_to_close_ends_the_editor() {
    let asset = Asset::new();
    let mut editor = editor();
    let mut window = Window::new();
    window.skip();
    let mut status = SuccessState::Main;
    let mut draw = Canvas::new();
    let mut poll = frame(0, 0, false, false);
    poll.close = true;
    let out = window.success(&mut draw, &poll, &asset, &mut status, &mut editor);
    assert_eq!(out, (Some(Status::Closure), Action::none()));
    assert!(draw.list.is_empty());
    assert_eq!(window.count, 1);
    let mut status = SuccessState::User;
    poll.close = false;
    let out = window.success(&mut draw, &poll, &asset, &mut status, &mut editor);
    assert_eq!(out, (None, Action::none()));
    assert!(draw.list.is_empty());
    assert_eq!(window.count, 0);
}

#[test]
fn the_main_page_of_the_first_screen() {
    let mut window = Window::new();
    let mut status = InitialState::Main;
    let mut draw = Canvas::new();
    let games = vec![game("Quake"), game("Doom")];
    let logo = Vector2::new(256000, 128000);
    let out = window.initial(&mut draw, &frame(0, 0, false, false), &mut status, logo, &games);
    assert_eq!(out, None);
    assert_eq!(status, InitialState::Main);
    assert_eq!(
        draw.list[1],
        Draw::Block {
            shape: Rectangle::new(0, 0, 1024000, 608000),
            color: Color::new(3, 169, 244, 255),
        }
    );
    assert_eq!(
        draw.list[2],
        Draw::Image {
            art: Art::Icon(Picture::Logo),
            shape: Rectangle::new(384000, 240000, 256000, 128000),
        }
    );
    assert_eq!(texts(&draw), vec!["New Map", "Load Map", "Exit Mallet"]);
    assert_eq!(
        draw.list[4],
        Draw::Round {
            shape: Rectangle::new(20000, 632000, 160000, 32000),
            color: Color::new(51, 103, 191, 255),
        }
    );
}

#[test]
fn the_first_screen_leads_to_the_games_and_back() {
    let mut window = Window::new();
    let mut status = InitialState::Main;
    let games = vec![game("Quake"), game("Doom")];
    let logo = Vector2::new(256000, 128000);
    let mut last = None;
    click(&mut window, 30000, 640000, |window, poll| {
        let mut draw = Canvas::new();
        last = window.initial(&mut draw, poll, &mut status, logo, &games);
    });
    assert_eq!(last, None);
    assert_eq!(status, InitialState::New);
    let mut draw = Canvas::new();
    window.initial(&mut draw, &frame(0, 0, false, false), &mut status, logo, &games);
    assert_eq!(texts(&draw), vec!["Game Selection", "Quake", "Doom", "Back"]);
    click(&mut window, 30000, 720000, |window, poll| {
        let mut draw = Canvas::new();
        last = window.initial(&mut draw, poll, &mut status, logo, &games);
    });
    assert_eq!(last, None);
    assert_eq!(status, InitialState::Main);
}

#[test]
fn a_game_that_is_chosen_leads_to_the_editor() {
    let mut window = Window::new();
    let mut status = InitialState::New;
    let games = vec![game("Quake"), game("Doom"), game("Hexen")];
    let logo = Vector2::new(256000, 128000);
    let mut last = None;
    let mut drawn = vec![];
    click(&mut window, 30000, 120000, |window, poll| {
        let mut draw = Canvas::new();
        last = window.initial(&mut draw, poll, &mut status, logo, &games);
        drawn = texts(&draw);
    });
    assert_eq!(last, Some(Status::Success(SuccessState::Main, 1)));
    assert_eq!(drawn, vec!["Game Selection", "Quake", "Doom"]);
    assert_eq!(status, InitialState::New);
}

#[test]
fn the_first_screen_ends_the_program() {
    let mut window = Window::new();
    let mut status = InitialState::Main;
    let games = vec![];
    let logo = Vector2::new(256000, 128000);
    let mut last = None;
    click(&mut window, 30000, 720000, |window, poll| {
        let mut draw = Canvas::new();
        last = window.initial(&mut draw, poll, &mut status, logo, &games);
    });
    assert_eq!(last, Some(Status::Closure));
    let mut poll = frame(0, 0, false, false);
    poll.close = true;
    let mut draw = Canvas::new();
    assert_eq!(window.initial(&mut draw, &poll, &mut status, logo, &games), Some(Status::Closure));
    let mut status = InitialState::New;
    assert_eq!(window.initial(&mut draw, &poll, &mut status, logo, &games), Some(Status::Closure));
    assert_eq!(InitialState::default(), InitialState::Main);
    assert_eq!(SuccessState::default(), SuccessState::Main);
}
