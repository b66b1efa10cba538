use mallet::draw::{Canvas, Draw};
use mallet::editor::{Editor, Meta};
use mallet::game::{Game, Info};
use mallet::gizmo::Data;
use mallet::input::{Poll, Reading, Signal, User};
use mallet::key::{Key, KeyboardKey, MouseButton};
use mallet::number::{number_text, parse_number};
use mallet::shape::{BoundingBox, Vector2, Vector3};
use mallet::status::SuccessState;
use mallet::window::{Asset, Measure, Window};
use mallet::world::{Entity, EntityData, EntityMeta, Kind};

fn meta(name: &str) -> EntityMeta {
    EntityMeta {
        name: name.to_string(),
        info: format!("A {name}."),
        data: vec![
            EntityData { name: "on".to_string(), info: "On".to_string(), kind: Kind::Bool(true) },
            EntityData {
                name: "power".to_string(),
                info: "Power".to_string(),
                kind: Kind::Number(2500),
            },
            EntityData {
                name: "tag".to_string(),
                info: "Tag".to_string(),
                kind: Kind::Text("hall".to_string()),
            },
            EntityData {
                name: "list".to_string(),
                info: "List".to_string(),
                kind: Kind::Other("[1]".to_string()),
            },
        ],
        shape: BoundingBox::new(Vector3::new(-500, -500, -500), Vector3::new(500, 500, 500)),
        call: None,
    }
}

fn editor() -> Editor {
    let mut editor = Editor::new(
        Vector2::new(1024000, 768000),
        Game::new(Info { name: "Quake".to_string() }, None, "game/".to_string()),
        User::default(),
        Meta {
            entity: vec![meta("light"), meta("lamp")],
            texture: vec!["game/wall.png".to_string(), "game/door.png".to_string()],
        },
    );
    editor.search_ent = "l".to_string();
    editor.search_tex = "wa".to_string();
    editor.world.entity.push(Entity::new_from_lua(meta("lamp")));
    editor.world.entity[0].position = Vector3::new(1000, 0, -250);
    editor.world.entity[0].focus = true;
    editor
}

fn frame(x: i64, y: i64, before: bool, now: bool) -> Poll {
    let mut poll = Poll::new();
    poll.mouse = Vector2::new(x, y);
    poll.screen = Vector2::new(1024000, 768000);
    poll.time = 1000;
    poll.reading = vec![
        Reading {
            key: Key::Mouse(MouseButton::Left),
            signal: Signal { before, now, repeat: false },
        },
    ];
    poll
}

#[test]
fn the_texts_to_measure_are_listed_in_order() {
    let editor = editor();
    let mut poll = frame(0, 0, false, false);
    poll.character = Some('5');
    let list = editor.text(&poll);
    let want = [
        "Position", "Rotation", "Scale", "Vertex", "Edge", "Face", "User", "Reload", "Import",
        "Export", "Exit", "Texture", "Entity", "0, 0", "Shift", "Angle", "Reset",
        "1", "2", "3", "4", "5", "6",
        "L. Control", "Z", "L. Control", "X", "L. Control", "C", "L. Control", "V",
        "L. Control", "B", "7", "8", "Mouse Left",
        "l", "l5", "wa", "wa5",
        "door.png", "wall.png",
        "lamp", "A lamp.",
        "1", "15", "0", "5", "-0.25", "-0.255",
        "0", "5", "0", "5", "0", "5",
        "1", "15", "1", "15", "1", "15",
        "2.5", "2.55", "hall", "hall5",
    ];
    assert_eq!(list, want);
}

#[test]
fn the_texts_to_measure_follow_the_keys_of_the_frame() {
    let mut editor = editor();
    editor.world.entity.clear();
    editor.asset.clear();
    let mut poll = frame(0, 0, false, false);
    poll.reading.push(Reading {
        key: Key::Keyboard(KeyboardKey::Backspace),
        signal: Signal { before: false, now: true, repeat: false },
    });
    let list = editor.text(&poll);
    assert_eq!(list[36..], ["l", "", "wa", "w"]);
    let list = editor.text(&frame(0, 0, false, false));
    assert_eq!(list[36..], ["l", "l", "wa", "wa"]);
    assert_eq!(list.len(), 40);
}

fn extent(text: &str) -> Vector2 {
    Vector2::new(7000 * text.chars().count() as i64 + 3000, 24000)
}

fn table(list: Vec<String>) -> Asset {
    Asset {
        measure: list
            .into_iter()
            .map(|text| {
                let shape = extent(&text);
                Measure { text, shape }
            })
            .collect(),
    }
}

/// Every text that stands anywhere in the editor or can come of it in
/// a frame, and the name of every key: far more than a frame measures.
fn everything(editor: &Editor, poll: &Poll, drawn: &[&Canvas]) -> Vec<String> {
    let mut list = editor.text(poll);
    list.reverse();
    let typed = |text: &str| {
        let mut text = text.to_string();
        Window::edit(&mut text, poll);
        text
    };
    let mut number = |value: i64, list: &mut Vec<String>| {
        let before = number_text(value);
        list.push(number_text(parse_number(&typed(&before)).unwrap_or(0)));
        list.push(before);
    };
    for name in ["Null", "A", "Space", "Mouse Right", "L. Shift", "F12", "Pad 0"] {
        list.push(Key::from(name).name().to_string());
    }
    for canvas in drawn {
        for item in &canvas.list {
            if let Draw::Text { text, .. } = item {
                list.push(text.clone());
                list.push(typed(text));
            }
        }
    }
    for entity in &editor.world.entity {
        list.push(entity.meta.name.clone());
        list.push(entity.meta.info.clone());
        for v in [entity.position, entity.rotation, entity.scale] {
            number(v.x, &mut list);
            number(v.y, &mut list);
            number(v.z, &mut list);
        }
        for data in &entity.meta.data {
            list.push(data.name.clone());
            list.push(data.info.clone());
            match &data.kind {
                Kind::Number(value) => number(*value, &mut list),
                Kind::Text(value) | Kind::Other(value) => {
                    list.push(value.clone());
                    list.push(typed(value));
                }
                Kind::Bool(_) => {}
            }
        }
    }
    for meta in &editor.meta.entity {
        list.push(meta.name.clone());
        list.push(meta.info.clone());
    }
    for name in &editor.asset.texture {
        list.push(name.clone());
        list.push(Window::shown_name(name, &editor.game.path));
    }
    for text in [&editor.search_ent, &editor.search_tex, &editor.game.path, &editor.game.info.name] {
        list.push(text.clone());
        list.push(typed(text));
    }
    list
}

/// Runs a frame of the editor with the extents of the listed texts, and
/// again with the extents of far more texts: what comes of the frame must
/// be the same. The result says whether the extents mattered at all.
fn same_with_what_is_listed(editor: &Editor, window: &Window, poll: &Poll) -> bool {
    let run = |asset: &Asset| {
        let mut editor = editor.clone();
        let mut window = window.clone();
        let mut canvas = Canvas::new();
        let mut status = SuccessState::Main;
        window.success(&mut canvas, poll, asset, &mut status, &mut editor);
        let mut label = Canvas::new();
        for entity in &editor.world.entity {
            entity.draw_2d(&mut label, asset, Vector2::new(100000, 100000));
        }
        (window, canvas, label, editor.world, editor.search_ent, editor.search_tex)
    };
    let listed = run(&table(editor.text(poll)));
    let more = run(&table(everything(editor, poll, &[&listed.1, &listed.2])));
    assert_eq!(listed, more);
    let none = run(&Asset::new());
    listed != none
}

#[test]
fn what_is_listed_is_enough_for_the_tips_of_the_tools() {
    let mut editor = editor();
    editor.world.entity.clear();
    let window = Window::new();
    for x in [20000, 60000, 100000, 150000, 190000, 240000, 820000, 860000, 900000, 950000, 990000] {
        assert!(same_with_what_is_listed(&editor, &window, &frame(x, 20000, false, false)));
    }
    assert!(same_with_what_is_listed(&editor, &window, &frame(640000, 80000, false, false)));
    assert!(same_with_what_is_listed(&editor, &window, &frame(690000, 80000, false, false)));
    assert!(!same_with_what_is_listed(&editor, &window, &frame(400000, 400000, false, false)));
}

#[test]
fn what_is_listed_is_enough_for_the_panel_of_entities() {
    let editor = editor();
    let mut window = Window::new();
    for name in ["Position", "Rotation", "Scale"] {
        Data::get(&mut window, name).active = true;
    }
    for y in (120000..760000).step_by(16000) {
        for (character, backspace) in [(None, false), (Some('7'), false), (Some('.'), false), (None, true)] {
            let mut poll = frame(650000, y, false, false);
            poll.character = character;
            if backspace {
                poll.reading.push(Reading {
                    key: Key::Keyboard(KeyboardKey::Backspace),
                    signal: Signal { before: false, now: true, repeat: false },
                });
            }
            assert!(same_with_what_is_listed(&editor, &window, &poll));
        }
    }
}

#[test]
fn what_is_listed_is_enough_for_the_panel_of_textures() {
    let mut editor = editor();
    editor.menu = true;
    editor.search_tex = String::new();
    editor.world.entity.clear();
    let window = Window::new();
    let mut mattered = 0;
    for (x, y) in [(700000, 200000), (650000, 340000), (720000, 340000), (650000, 300000), (0, 0)] {
        for (before, now) in [(false, false), (false, true), (true, true), (true, false)] {
            let mut poll = frame(x, y, before, now);
            mattered += same_with_what_is_listed(&editor, &window, &poll) as usize;
            poll.character = Some('d');
            mattered += same_with_what_is_listed(&editor, &window, &poll) as usize;
        }
    }
    assert!(mattered >= 32);
}
