use mallet::draw::{Art, Canvas, Draw, Picture};
use mallet::editor::{Editor, Meta};
use mallet::game::{Game, Info};
use mallet::input::User;
use mallet::scene::{Solid, Stage};
use mallet::shape::{BoundingBox, Color, Rectangle, Vector2, Vector3};
use mallet::window::{Asset, Measure};
use mallet::world::{Brush, Entity, EntityData, EntityMeta, Face, Kind, Vertex, Widget, World};
use serde_json::{Number, Value};

fn meta(name: &str) -> EntityMeta {
    EntityMeta {
        name: name.to_string(),
        info: "A light.".to_string(),
        data: vec![
            EntityData {
                name: "power".to_string(),
                info: "Power".to_string(),
                kind: Kind::Number(2500),
            },
            EntityData { name: "on".to_string(), info: "On".to_string(), kind: Kind::Bool(true) },
            EntityData {
                name: "tag".to_string(),
                info: "Tag".to_string(),
                kind: Kind::Text("hall".to_string()),
            },
            EntityData {
                name: "list".to_string(),
                info: "List".to_string(),
                kind: Kind::Other("[1,2]".to_string()),
            },
        ],
        shape: BoundingBox::new(Vector3::new(-500, -500, -500), Vector3::new(500, 1500, 500)),
        call: Some("draw_light".to_string()),
    }
}

fn editor() -> Editor {
    Editor::new(
        Vector2::new(1024000, 768000),
        Game::new(Info { name: "Quake".to_string() }, None, "game/".to_string()),
        User::default(),
        Meta { entity: vec![], texture: vec!["wall.png".to_string()] },
    )
}

#[test]
fn a_brush_draws_its_six_sides() {
    let editor = editor();
    let mut brush = Brush::default();
    brush.face[1].texture = Some("wall.png".to_string());
    brush.face[2].texture = Some("lost.png".to_string());
    brush.face[1].shift = Vector2::new(500, 250);
    brush.face[1].scale = Vector2::new(2000, 4000);
    let mut stage = Stage::new();
    brush.draw(&mut stage, &editor.asset);
    assert_eq!(stage.list.len(), 6);
    assert_eq!(
        stage.list[0],
        Solid::Quad {
            a: Vector3::new(-1000, -1000, 1000),
            b: Vector3::new(1000, -1000, 1000),
            c: Vector3::new(1000, 1000, 1000),
            d: Vector3::new(-1000, 1000, 1000),
            ua: Vector2::new(0, 1000),
            ub: Vector2::new(1000, 1000),
            uc: Vector2::new(1000, 0),
            ud: Vector2::new(0, 0),
            art: Art::Icon(Picture::Default),
            tint: Color::new(255, 255, 255, 255),
        }
    );
    assert_eq!(
        stage.list[1],
        Solid::Quad {
            a: Vector3::new(1000, -1000, -1000),
            b: Vector3::new(-1000, -1000, -1000),
            c: Vector3::new(-1000, 1000, -1000),
            d: Vector3::new(1000, 1000, -1000),
            ua: Vector2::new(1000, 5000),
            ub: Vector2::new(3000, 5000),
            uc: Vector2::new(3000, 1000),
            ud: Vector2::new(1000, 1000),
            art: Art::Named("wall.png".to_string()),
            tint: Color::new(255, 255, 255, 255),
        }
    );
    match &stage.list[2] {
        Solid::Quad { art, .. } => assert_eq!(*art, Art::Icon(Picture::Default)),
        other => panic!("{other:?}"),
    }
    brush.focus = true;
    let mut stage = Stage::new();
    brush.draw(&mut stage, &editor.asset);
    match &stage.list[5] {
        Solid::Quad { tint, .. } => assert_eq!(*tint, Color::new(255, 191, 191, 255)),
        other => panic!("{other:?}"),
    }
}

#[test]
fn the_corners_of_a_brush_have_handles() {
    let mut brush = Brush::default();
    brush.vertex[2].focus = true;
    let mut stage = Stage::new();
    brush.draw_handles(&mut stage);
    assert_eq!(stage.list.len(), 8);
    assert_eq!(
        stage.list[2],
        Solid::Cube { center: Vector3::new(1000, 1000, 1000), size: 500, color: Color::green() }
    );
    assert_eq!(
        stage.list[7],
        Solid::Cube { center: Vector3::new(-1000, 1000, -1000), size: 500, color: Color::red() }
    );
}

#[test]
fn an_entity_draws_its_box_and_calls_its_script() {
    let mut entity = Entity::new_from_lua(meta("light"));
    entity.position = Vector3::new(2000, 0, 0);
    let mut stage = Stage::new();
    entity.draw_3d(&mut stage, 4);
    assert_eq!(
        stage.list,
        vec![
            Solid::Bounds {
                shape: BoundingBox::new(Vector3::new(1500, -500, -500), Vector3::new(2500, 1500, 500)),
                color: Color::red(),
            },
            Solid::Call { name: "draw_light".to_string(), entity: 4 },
        ]
    );
    entity.focus = true;
    entity.meta.call = None;
    let mut stage = Stage::new();
    entity.draw_3d(&mut stage, 0);
    assert_eq!(
        stage.list,
        vec![Solid::Bounds {
            shape: BoundingBox::new(Vector3::new(1500, -500, -500), Vector3::new(2500, 1500, 500)),
            color: Color::green(),
        }]
    );
}

#[test]
fn an_entity_has_a_label_over_a_view() {
    let asset = Asset {
        measure: vec![Measure { text: "light".to_string(), shape: Vector2::new(50000, 24000) }],
    };
    let mut entity = Entity::new_from_lua(meta("light"));
    let mut draw = Canvas::new();
    entity.draw_2d(&mut draw, &asset, Vector2::new(200000, 100000));
    assert_eq!(
        draw.list,
        vec![
            Draw::Round {
                shape: Rectangle::new(175000, 88000, 58000, 24000),
                color: Color::new(0, 0, 0, 127),
            },
            Draw::Text {
                text: "light".to_string(),
                point: Vector2::new(179000, 88000),
                color: Color::white(),
            },
        ]
    );
    entity.focus = true;
    let mut draw = Canvas::new();
    entity.draw_2d(&mut draw, &asset, Vector2::new(200000, 100000));
    assert_eq!(
        draw.list[0],
        Draw::Round {
            shape: Rectangle::new(175000, 88000, 58000, 24000),
            color: Color::new(0, 0, 0, 255),
        }
    );
}

#[test]
fn a_view_shows_grid_axes_brushes_and_entities() {
    let mut editor = editor();
    editor.world.entity.push(Entity::new_from_lua(meta("light")));
    let stage = editor.draw(0);
    assert_eq!(stage.list.len(), 1 + 3 + 6 + 2);
    assert_eq!(
        stage.list[0],
        Solid::Grid { slice: 1000, space: 1000, axis: Vector3::zero(), angle: 0 }
    );
    assert_eq!(
        stage.list[1],
        Solid::Ray { from: Vector3::zero(), along: Vector3::new(1000, 0, 0), color: Color::red() }
    );
    assert_eq!(
        stage.list[2],
        Solid::Ray { from: Vector3::zero(), along: Vector3::new(0, 1000, 0), color: Color::green() }
    );
    assert_eq!(
        stage.list[3],
        Solid::Ray {
            from: Vector3::zero(),
            along: Vector3::new(0, 0, 1000),
            color: Color::new(0, 0, 255, 255),
        }
    );
    assert_eq!(stage.list[11], Solid::Call { name: "draw_light".to_string(), entity: 0 });
}

#[test]
fn the_grid_faces_an_orthographic_camera() {
    let editor = editor();
    assert_eq!(
        editor.draw(1).list[0],
        Solid::Grid { slice: 1000, space: 1000, axis: Vector3::new(0, 0, -512000), angle: 90 }
    );
    assert_eq!(
        editor.draw(2).list[0],
        Solid::Grid { slice: 1000, space: 1000, axis: Vector3::new(0, 0, 512000), angle: 180 }
    );
    assert_eq!(
        editor.draw(3).list[0],
        Solid::Grid { slice: 1000, space: 1000, axis: Vector3::new(512000, 0, 0), angle: 90 }
    );
}

#[test]
fn handles_show_in_the_vertex_mode_on_brushes_in_focus() {
    let mut editor = editor();
    editor.world.brush.push(Brush::default());
    editor.world.brush[1].focus = true;
    assert_eq!(editor.draw(0).list.len(), 4 + 12);
    editor.widget = Widget::Vertex;
    let stage = editor.draw(0);
    assert_eq!(stage.list.len(), 4 + 12 + 8);
    assert!(matches!(stage.list[16], Solid::Cube { .. }));
    editor.widget = Widget::Edge;
    assert_eq!(editor.draw(0).list.len(), 4 + 12);
}

fn number(v: i64) -> Value {
    Value::Number(Number::from(v))
}

fn vector3(v: &Vector3) -> Value {
    Value::Array(vec![number(v.x), number(v.y), number(v.z)])
}

fn vector2(v: &Vector2) -> Value {
    Value::Array(vec![number(v.x), number(v.y)])
}

fn read_i64(v: &Value) -> i64 {
    v.as_i64().unwrap()
}

fn read_vector3(v: &Value) -> Vector3 {
    Vector3::new(read_i64(&v[0]), read_i64(&v[1]), read_i64(&v[2]))
}

fn read_vector2(v: &Value) -> Vector2 {
    Vector2::new(read_i64(&v[0]), read_i64(&v[1]))
}

fn text(v: &Value) -> String {
    v.as_str().unwrap().to_string()
}

fn write_world(world: &World) -> Value {
    let mut brushes = vec![];
    for brush in &world.brush {
        let mut b = serde_json::Map::new();
        b.insert("focus".to_string(), Value::Bool(brush.focus));
        b.insert(
            "vertex".to_string(),
            Value::Array(
                brush
                    .vertex
                    .iter()
                    .map(|v| {
                        let mut m = serde_json::Map::new();
                        m.insert("focus".to_string(), Value::Bool(v.focus));
                        m.insert("point".to_string(), vector3(&v.point));
                        Value::Object(m)
                    })
                    .collect(),
            ),
        );
        b.insert(
            "face".to_string(),
            Value::Array(
                brush
                    .face
                    .iter()
                    .map(|f| {
                        let mut m = serde_json::Map::new();
                        m.insert("focus".to_string(), Value::Bool(f.focus));
                        m.insert(
                            "index".to_string(),
                            Value::Array(f.index.iter().map(|i| number(*i as i64)).collect()),
                        );
                        m.insert("shift".to_string(), vector2(&f.shift));
                        m.insert("scale".to_string(), vector2(&f.scale));
                        m.insert(
                            "color".to_string(),
                            Value::Array(
                                [f.color.r, f.color.g, f.color.b, f.color.a]
                                    .iter()
                                    .map(|c| number(*c as i64))
                                    .collect(),
                            ),
                        );
                        m.insert(
                            "texture".to_string(),
                            match &f.texture {
                                Some(t) => Value::String(t.clone()),
                                None => Value::Null,
                            },
                        );
                        Value::Object(m)
                    })
                    .collect(),
            ),
        );
        brushes.push(Value::Object(b));
    }
    let mut entities = vec![];
    for entity in &world.entity {
        let mut e = serde_json::Map::new();
        e.insert("position".to_string(), vector3(&entity.position));
        e.insert("rotation".to_string(), vector3(&entity.rotation));
        e.insert("scale".to_string(), vector3(&entity.scale));
        e.insert("focus".to_string(), Value::Bool(entity.focus));
        let mut m = serde_json::Map::new();
        m.insert("name".to_string(), Value::String(entity.meta.name.clone()));
        m.insert("info".to_string(), Value::String(entity.meta.info.clone()));
        m.insert("min".to_string(), vector3(&entity.meta.shape.min));
        m.insert("max".to_string(), vector3(&entity.meta.shape.max));
        m.insert(
            "call".to_string(),
            match &entity.meta.call {
                Some(c) => Value::String(c.clone()),
                None => Value::Null,
            },
        );
        m.insert(
            "data".to_string(),
            Value::Array(
                entity
                    .meta
                    .data
                    .iter()
                    .map(|d| {
                        let mut f = serde_json::Map::new();
                        f.insert("name".to_string(), Value::String(d.name.clone()));
                        f.insert("info".to_string(), Value::String(d.info.clone()));
                        let (tag, kind) = match &d.kind {
                            Kind::Bool(b) => ("bool", Value::Bool(*b)),
                            Kind::Number(n) => ("number", number(*n)),
                            Kind::Text(t) => ("text", Value::String(t.clone())),
                            Kind::Other(o) => ("other", serde_json::from_str(o).unwrap()),
                        };
                        f.insert("tag".to_string(), Value::String(tag.to_string()));
                        f.insert("kind".to_string(), kind);
                        Value::Object(f)
                    })
                    .collect(),
            ),
        );
        e.insert("meta".to_string(), Value::Object(m));
        entities.push(Value::Object(e));
    }
    let mut w = serde_json::Map::new();
    w.insert("brush".to_string(), Value::Array(brushes));
    w.insert("entity".to_string(), Value::Array(entities));
    Value::Object(w)
}

fn read_world(value: &Value) -> World {
    let brush = value["brush"]
        .as_array()
        .unwrap()
        .iter()
        .map(|b| {
            let mut brush = Brush::default();
            brush.focus = b["focus"].as_bool().unwrap();
            for (j, v) in b["vertex"].as_array().unwrap().iter().enumerate() {
                brush.vertex[j] =
                    Vertex { focus: v["focus"].as_bool().unwrap(), point: read_vector3(&v["point"]) };
            }
            for (k, f) in b["face"].as_array().unwrap().iter().enumerate() {
                let index = &f["index"];
                let color = &f["color"];
                brush.face[k] = Face {
                    focus: f["focus"].as_bool().unwrap(),
                    index: [
                        read_i64(&index[0]) as usize,
                        read_i64(&index[1]) as usize,
                        read_i64(&index[2]) as usize,
                        read_i64(&index[3]) as usize,
                    ],
                    shift: read_vector2(&f["shift"]),
                    scale: read_vector2(&f["scale"]),
                    color: Color::new(
                        read_i64(&color[0]) as u8,
                        read_i64(&color[1]) as u8,
                        read_i64(&color[2]) as u8,
                        read_i64(&color[3]) as u8,
                    ),
                    texture: f["texture"].as_str().map(|t| t.to_string()),
                };
            }
            brush
        })
        .collect();
    let entity = value["entity"]
        .as_array()
        .unwrap()
        .iter()
        .map(|e| {
            let m = &e["meta"];
            Entity {
                position: read_vector3(&e["position"]),
                rotation: read_vector3(&e["rotation"]),
                scale: read_vector3(&e["scale"]),
                focus: e["focus"].as_bool().unwrap(),
                meta: EntityMeta {
                    name: text(&m["name"]),
                    info: text(&m["info"]),
                    data: m["data"]
                        .as_array()
                        .unwrap()
                        .iter()
                        .map(|d| EntityData {
                            name: text(&d["name"]),
                            info: text(&d["info"]),
                            kind: match d["tag"].as_str().unwrap() {
                                "bool" => Kind::Bool(d["kind"].as_bool().unwrap()),
                                "number" => Kind::Number(read_i64(&d["kind"])),
                                "text" => Kind::Text(text(&d["kind"])),
                                _ => Kind::Other(serde_json::to_string(&d["kind"]).unwrap()),
                            },
                        })
                        .collect(),
                    shape: BoundingBox::new(read_vector3(&m["min"]), read_vector3(&m["max"])),
                    call: m["call"].as_str().map(|c| c.to_string()),
                },
            }
        })
        .collect();
    World { brush, entity }
}

#[test]
fn a_scene_that_is_written_and_read_is_the_same_scene() {
    let mut world = World {
        brush: vec![Brush::default(), Brush::default()],
        entity: vec![Entity::new_from_lua(meta("light"))],
    };
    let written = serde_json::to_string(&write_world(&world)).unwrap();
    let read = read_world(&serde_json::from_str(&written).unwrap());
    assert_eq!(read, world);
    for b in 0..2 {
        for j in 0..8 {
            assert_eq!(read.brush[b].vertex[j].point, Brush::default().vertex[j].point);
        }
        for k in 0..6 {
            assert_eq!(read.brush[b].face[k].texture, None);
        }
    }
    assert_eq!(read.entity[0].position, Vector3::zero());
    assert_eq!(read.entity[0].rotation, Vector3::zero());
    assert_eq!(read.entity[0].scale, Vector3::one());

    world.brush[1].position(Vector3::new(330, 1000, -600));
    world.brush[1].face[3].texture = Some("wall.png".to_string());
    world.brush[1].face[3].shift = Vector2::new(-250, 125);
    world.brush[0].vertex[5].focus = true;
    world.entity[0].position(Vector3::new(-1500, 0, 2250));
    world.entity[0].rotation(Vector3::new(0, 90000, 0));
    world.entity[0].scale(Vector3::new(500, 500, 500));
    world.entity[0].focus = true;
    let written = serde_json::to_string(&write_world(&world)).unwrap();
    let read = read_world(&serde_json::from_str(&written).unwrap());
    assert_eq!(read, world);
    assert!(read.check());
}
