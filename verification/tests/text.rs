use mallet::asset::Outer;
use mallet::game::{Configuration, Data, Game, Info, InfoMallet};
use mallet::text::{before, same_text, starts_with};
use mallet::window::Window;
use mallet::world::Kind;

#[test]
fn texts_are_the_same_character_by_character() {
    assert!(same_text("", ""));
    assert!(same_text("Position", "Position"));
    assert!(!same_text("Position", "Positio"));
    assert!(!same_text("Position", "Positiom"));
    assert!(!same_text("a", ""));
    assert!(same_text("Größe", "Größe"));
    assert!(!same_text("Größe", "Grosse"));
}

#[test]
fn a_text_begins_with_its_prefixes() {
    assert!(starts_with("light_point", ""));
    assert!(starts_with("light_point", "light"));
    assert!(starts_with("light_point", "light_point"));
    assert!(!starts_with("light_point", "light_points"));
    assert!(!starts_with("light_point", "point"));
    assert!(!starts_with("", "a"));
    assert!(starts_with("", ""));
}

#[test]
fn texts_are_ordered_character_by_character() {
    assert!(before("a", "b"));
    assert!(!before("b", "a"));
    assert!(!before("a", "a"));
    assert!(before("", "a"));
    assert!(!before("a", ""));
    assert!(!before("", ""));
    assert!(before("wall", "wall2"));
    assert!(before("Wall", "wall"));
    assert!(before("a/z.png", "b/a.png"));
    assert!(before("z", "ä"));
    let mut names = vec!["b", "", "ä", "B", "a/b", "a", "ab", "z"];
    names.sort();
    for i in 0..names.len() {
        for j in 0..names.len() {
            assert_eq!(before(names[i], names[j]), i < j, "{} {}", names[i], names[j]);
        }
    }
}

#[test]
fn a_texture_shows_under_its_name_without_the_directory_of_the_game() {
    assert_eq!(Window::shown_name("game/wall.png", "game/"), "wall.png");
    assert_eq!(Window::shown_name("game/wall.png", "game"), "/wall.png");
    assert_eq!(Window::shown_name("game/wall.png", ""), "game/wall.png");
    assert_eq!(Window::shown_name("game/game/wall.png", "game/"), "wall.png");
    assert_eq!(Window::shown_name("aaa", "aa"), "a");
    assert_eq!(Window::shown_name("wall.png", "game/"), "wall.png");
    assert_eq!(Window::shown_name("", "game/"), "");
}

#[test]
fn the_names_of_the_textures_stand_once_and_in_order() {
    let mut outer = Outer::new();
    assert!(outer.texture.is_empty());
    outer.set_texture("wall.png");
    outer.set_texture("door.png");
    outer.set_texture("wall.png");
    outer.set_texture("floor.png");
    outer.set_texture("a.png");
    outer.set_texture("zz.png");
    outer.set_texture("door.png");
    assert_eq!(outer.texture, vec!["a.png", "door.png", "floor.png", "wall.png", "zz.png"]);
    assert!(outer.contains("floor.png"));
    assert!(!outer.contains("floor"));
    outer.clear();
    assert!(outer.texture.is_empty());
    assert!(!outer.contains("floor.png"));
}

#[test]
fn a_list_of_textures_is_taken_in_one_by_one() {
    let mut outer = Outer::new();
    outer.set_texture("m.png");
    outer.set_texture_list(&vec!["z.png".to_string(), "a.png".to_string(), "m.png".to_string()]);
    assert_eq!(outer.texture, vec!["a.png", "m.png", "z.png"]);
    outer.set_texture_list(&vec![]);
    assert_eq!(outer.texture.len(), 3);
}

#[test]
fn one_game_for_each_directory() {
    let path = vec!["quake".to_string(), "doom".to_string()];
    let info = vec![Info { name: "Quake".to_string() }, Info { name: "Doom".to_string() }];
    let data = vec![
        None,
        Some(Data {
            path: "maps".to_string(),
            configuration: vec![Configuration {
                name: "sky".to_string(),
                info: "The sky.".to_string(),
                kind: Kind::Bool(true),
            }],
        }),
    ];
    let list = Game::new_list(path.clone(), info.clone(), data.clone());
    assert_eq!(list.len(), 2);
    assert_eq!(list[0], Game::new(info[0].clone(), None, "quake".to_string()));
    assert_eq!(list[1].info.name, "Doom");
    assert_eq!(list[1].path, "doom");
    assert_eq!(list[1].data, data[1]);
    let short = Game::new_list(path.clone(), info[..1].to_vec(), data.clone());
    assert_eq!(short.len(), 1);
    assert_eq!(short[0].path, "quake");
    assert!(Game::new_list(vec![], info, data).is_empty());
    let mallet = InfoMallet { path };
    assert_eq!(mallet.path.len(), 2);
}
