use raytracer::hittable::HittableVector;

#[test]
fn new_scene_is_empty() {
    let scene: HittableVector<u32> = HittableVector::new();
    assert!(scene.objects().is_empty());
}

#[test]
fn push_keeps_insertion_order() {
    let mut scene = HittableVector::new();
    scene.push("ground");
    scene.push("glass");
    scene.push("metal");
    assert_eq!(scene.objects(), &["ground", "glass", "metal"]);
}

#[test]
fn clear_removes_everything() {
    let mut scene = HittableVector::new();
    scene.push(1);
    scene.push(2);
    scene.clear();
    assert!(scene.objects().is_empty());
    scene.push(3);
    assert_eq!(scene.objects(), &[3]);
}
