use mallet::pick::{pick, Miss, Picker, Probe, Target};
use mallet::shape::{BoundingBox, Vector3};
use mallet::world::{Brush, Entity, EntityMeta, World};

fn meta(name: &str) -> EntityMeta {
    EntityMeta {
        name: name.to_string(),
        info: String::new(),
        data: vec![],
        shape: BoundingBox::new(Vector3::new(-500, -500, -500), Vector3::new(500, 1500, 500)),
        call: None,
    }
}

fn scene(brushes: usize, entities: usize) -> World {
    World {
        brush: (0..brushes).map(|_| Brush::default()).collect(),
        entity: (0..entities).map(|_| Entity::new_from_lua(meta("light"))).collect(),
    }
}

fn flags(world: &World) -> (Vec<bool>, Vec<Vec<bool>>, Vec<bool>, Vec<bool>) {
    (
        world.brush.iter().map(|b| b.focus).collect(),
        world.brush.iter().map(|b| b.vertex.iter().map(|v| v.focus).collect()).collect(),
        world.brush.iter().flat_map(|b| b.face.iter().map(|f| f.focus)).collect(),
        world.entity.iter().map(|e| e.focus).collect(),
    )
}

fn targets(n: usize) -> Vec<Target> {
    (0..n)
        .map(|i| Target {
            picker: Picker::Brush(i),
            probe: Probe::Box(BoundingBox::new(Vector3::zero(), Vector3::one())),
        })
        .collect()
}

#[test]
fn a_brush_out_of_focus_offers_its_six_sides() {
    let world = scene(1, 0);
    let list = world.target();
    assert_eq!(list.len(), 6);
    assert!(list.iter().all(|t| t.picker == Picker::Brush(0)));
    assert_eq!(
        list[0].probe,
        Probe::Quad(
            Vector3::new(-1000, -1000, 1000),
            Vector3::new(1000, -1000, 1000),
            Vector3::new(1000, 1000, 1000),
            Vector3::new(-1000, 1000, 1000),
        )
    );
    assert_eq!(
        list[5].probe,
        Probe::Quad(
            Vector3::new(-1000, -1000, -1000),
            Vector3::new(-1000, -1000, 1000),
            Vector3::new(-1000, 1000, 1000),
            Vector3::new(-1000, 1000, -1000),
        )
    );
}

#[test]
fn a_brush_in_focus_offers_its_eight_corners() {
    let mut world = scene(2, 0);
    world.brush[1].focus = true;
    let list = world.target();
    assert_eq!(list.len(), 14);
    assert_eq!(list[5].picker, Picker::Brush(0));
    for j in 0..8 {
        assert_eq!(list[6 + j].picker, Picker::Vertex(1, j));
    }
    assert_eq!(
        list[6].probe,
        Probe::Box(BoundingBox::new(
            Vector3::new(-1500, -1500, 500),
            Vector3::new(-500, -500, 1500)
        ))
    );
}

#[test]
fn entities_come_after_the_brushes() {
    let mut world = scene(1, 2);
    world.entity[1].position = Vector3::new(10000, 0, -2000);
    let list = world.target();
    assert_eq!(list.len(), 8);
    assert_eq!(list[6].picker, Picker::Entity(0));
    assert_eq!(list[7].picker, Picker::Entity(1));
    assert_eq!(
        list[7].probe,
        Probe::Box(BoundingBox::new(
            Vector3::new(9500, -500, -2500),
            Vector3::new(10500, 1500, -1500)
        ))
    );
    assert_eq!(world.entity[1].bound_box(), BoundingBox::new(
        Vector3::new(9500, -500, -2500),
        Vector3::new(10500, 1500, -1500)
    ));
}

#[test]
fn an_empty_scene_offers_nothing() {
    assert!(scene(0, 0).target().is_empty());
    assert_eq!(pick(&vec![], &vec![]), None);
    assert_eq!(pick(&vec![], &vec![Some(5)]), None);
}

#[test]
fn the_nearest_hit_wins() {
    let hit = vec![None, Some(7000), Some(3000), None, Some(9000)];
    assert_eq!(pick(&targets(5), &hit), Some((Picker::Brush(2), 3000)));
}

#[test]
fn of_equal_hits_the_first_wins() {
    let world = scene(2, 0);
    let list = world.target();
    let mut hit = vec![None; 12];
    hit[0] = Some(5000);
    hit[6] = Some(5000);
    assert_eq!(pick(&list, &hit), Some((Picker::Brush(0), 5000)));
    let hit = vec![Some(5000), Some(4000), Some(4000), Some(5000)];
    assert_eq!(pick(&targets(4), &hit), Some((Picker::Brush(1), 4000)));
}

#[test]
fn a_brush_before_an_entity_at_the_same_distance_wins() {
    let world = scene(1, 1);
    let list = world.target();
    let mut hit = vec![None; 7];
    hit[3] = Some(2500);
    hit[6] = Some(2500);
    assert_eq!(pick(&list, &hit), Some((Picker::Brush(0), 2500)));
    hit[6] = Some(2499);
    assert_eq!(pick(&list, &hit), Some((Picker::Entity(0), 2499)));
}

#[test]
fn no_hit_is_no_pick() {
    assert_eq!(pick(&targets(3), &vec![None, None, None]), None);
}

#[test]
fn readings_that_are_missing_are_misses() {
    assert_eq!(pick(&targets(3), &vec![None]), None);
    assert_eq!(pick(&targets(3), &vec![None, Some(4)]), Some((Picker::Brush(1), 4)));
    assert_eq!(pick(&targets(1), &vec![None, Some(4)]), None);
}

#[test]
fn select_all_sets_every_flag() {
    let mut world = scene(2, 2);
    world.select_all(true);
    let (brush, vertex, face, entity) = flags(&world);
    assert!(brush.iter().all(|f| *f));
    assert!(vertex.iter().flatten().all(|f| *f));
    assert!(face.iter().all(|f| *f));
    assert!(entity.iter().all(|f| *f));
    let points: Vec<Vector3> = world.brush[1].vertex.iter().map(|v| v.point).collect();
    assert_eq!(points[6], Vector3::new(1000, 1000, -1000));
    world.select_all(false);
    assert_eq!(world, scene(2, 2));
}

#[test]
fn a_click_on_a_brush_selects_it_alone() {
    let mut world = scene(3, 1);
    world.brush[0].focus = true;
    world.brush[0].vertex[2].focus = true;
    world.entity[0].focus = true;
    world.select(Some(Picker::Brush(1)), false, Miss::Keep);
    let (brush, vertex, _, entity) = flags(&world);
    assert_eq!(brush, vec![false, true, false]);
    assert!(vertex.iter().flatten().all(|f| !*f));
    assert_eq!(entity, vec![false]);
}

#[test]
fn a_second_click_deselects() {
    let mut world = scene(2, 2);
    world.select(Some(Picker::Brush(1)), false, Miss::Keep);
    assert!(world.brush[1].focus);
    world.select(Some(Picker::Brush(1)), false, Miss::Keep);
    assert!(!world.brush[1].focus);
    world.select(Some(Picker::Entity(0)), false, Miss::Keep);
    assert!(world.entity[0].focus);
    world.select(Some(Picker::Entity(0)), false, Miss::Keep);
    assert_eq!(world, scene(2, 2));
}

#[test]
fn a_click_with_shift_adds_to_the_selection() {
    let mut world = scene(2, 2);
    world.select(Some(Picker::Brush(0)), false, Miss::Keep);
    world.select(Some(Picker::Entity(1)), true, Miss::Keep);
    world.select(Some(Picker::Brush(1)), true, Miss::Keep);
    let (brush, _, _, entity) = flags(&world);
    assert_eq!(brush, vec![true, true]);
    assert_eq!(entity, vec![false, true]);
    world.select(Some(Picker::Brush(0)), true, Miss::Keep);
    let (brush, _, _, entity) = flags(&world);
    assert_eq!(brush, vec![false, true]);
    assert_eq!(entity, vec![false, true]);
}

#[test]
fn a_click_on_a_corner_keeps_its_brush_in_focus() {
    let mut world = scene(2, 1);
    world.brush[1].focus = true;
    world.entity[0].focus = true;
    world.select(Some(Picker::Vertex(1, 3)), false, Miss::Keep);
    let (brush, vertex, _, entity) = flags(&world);
    assert_eq!(brush, vec![false, true]);
    assert_eq!(vertex[1], vec![false, false, false, true, false, false, false, false]);
    assert_eq!(entity, vec![false]);
    world.select(Some(Picker::Vertex(1, 5)), true, Miss::Keep);
    assert_eq!(
        flags(&world).1[1],
        vec![false, false, false, true, false, true, false, false]
    );
    world.select(Some(Picker::Vertex(1, 3)), true, Miss::Keep);
    assert_eq!(
        flags(&world).1[1],
        vec![false, false, false, false, false, true, false, false]
    );
    assert!(world.brush[1].focus);
    world.select(Some(Picker::Vertex(1, 0)), false, Miss::Keep);
    assert_eq!(
        flags(&world).1[1],
        vec![true, false, false, false, false, false, false, false]
    );
}

#[test]
fn a_miss_clears_the_selection() {
    let mut world = scene(2, 2);
    world.select_all(true);
    world.select(None, false, Miss::Keep);
    assert_eq!(world, scene(2, 2));
    world.select_all(true);
    world.select(None, false, Miss::Clear);
    assert_eq!(world, scene(2, 2));
}

#[test]
fn a_miss_with_shift_goes_by_the_policy() {
    let mut world = scene(2, 2);
    world.brush[1].focus = true;
    world.entity[0].focus = true;
    let before = world.clone();
    world.select(None, true, Miss::Keep);
    assert_eq!(world, before);
    world.select(None, true, Miss::Clear);
    assert_eq!(world, scene(2, 2));
}

#[test]
fn a_scene_as_it_is_made() {
    let world = World::default();
    assert_eq!(world.brush.len(), 1);
    assert!(world.entity.is_empty());
    assert!(world.check());
    let brush = &world.brush[0];
    let corners = [
        (-1000, -1000, 1000), (1000, -1000, 1000), (1000, 1000, 1000), (-1000, 1000, 1000),
        (-1000, -1000, -1000), (1000, -1000, -1000), (1000, 1000, -1000), (-1000, 1000, -1000),
    ];
    for (j, (x, y, z)) in corners.iter().enumerate() {
        assert_eq!(brush.vertex[j].point, Vector3::new(*x, *y, *z));
        assert!(!brush.vertex[j].focus);
    }
    let index: Vec<[usize; 4]> = brush.face.iter().map(|f| f.index).collect();
    assert_eq!(
        index,
        vec![[0, 1, 2, 3], [5, 4, 7, 6], [3, 2, 6, 7], [1, 0, 4, 5], [1, 5, 6, 2], [4, 0, 3, 7]]
    );
    for face in &brush.face {
        assert!(!face.focus);
        assert_eq!(face.texture, None);
        assert_eq!(face.shift, mallet::shape::Vector2::new(0, 0));
        assert_eq!(face.scale, mallet::shape::Vector2::new(1000, 1000));
        assert_eq!(face.color, mallet::shape::Color::white());
    }
    assert!(!brush.focus);
    assert_eq!(Brush::DEFAULT_SHAPE, 1000);
}

#[test]
fn a_side_that_names_no_corner_is_found() {
    let mut world = scene(2, 0);
    assert!(world.check());
    assert!(world.brush[1].check());
    world.brush[1].face[4].index[2] = 8;
    assert!(!world.brush[1].check());
    assert!(!world.check());
    assert!(world.brush[0].check());
}

#[test]
fn an_entity_as_it_is_made() {
    let entity = Entity::new_from_lua(meta("light"));
    assert_eq!(entity.position, Vector3::zero());
    assert_eq!(entity.rotation, Vector3::zero());
    assert_eq!(entity.scale, Vector3::one());
    assert!(!entity.focus);
    assert_eq!(entity.meta, meta("light"));
    assert_eq!(meta("light").duplicate(), meta("light"));
}
