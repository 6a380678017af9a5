use scrimshady::geometry::Extent;
use scrimshady::resources::{Provisioning, ResourceCache, ResourceSet};

fn empty(client: Extent) -> ResourceSet {
    ResourceSet {
        client,
        staging: None,
        extended: None,
        extended_input: None,
        extended_output: None,
        render_target: None,
    }
}

#[test]
fn new_cache_holds_nothing() {
    let cache = ResourceCache::new(Extent::new(1280, 720));
    assert_eq!(cache.snapshot(), empty(Extent::new(1280, 720)));
}

#[test]
fn ensure_staging_is_idempotent() {
    let mut cache = ResourceCache::new(Extent::new(800, 600));
    assert!(cache.ensure_staging(800, 600));
    let after_first = cache.snapshot();
    assert_eq!(after_first.staging, Some(Extent::new(800, 600)));
    assert!(!cache.ensure_staging(800, 600));
    assert_eq!(cache.snapshot(), after_first);
}

#[test]
fn ensure_staging_replaces_a_stale_size() {
    let mut cache = ResourceCache::new(Extent::new(800, 600));
    assert!(cache.ensure_staging(800, 600));
    assert!(cache.ensure_staging(640, 480));
    assert_eq!(cache.snapshot().staging, Some(Extent::new(640, 480)));
    assert!(cache.ensure_staging(640, 481));
    assert!(cache.ensure_staging(641, 481));
    assert!(!cache.ensure_staging(641, 481));
}

#[test]
fn ensure_extended_brings_both_views() {
    let mut cache = ResourceCache::new(Extent::new(800, 600));
    assert!(cache.ensure_extended(850, 600));
    let set = cache.snapshot();
    assert_eq!(set.extended, Some(Extent::new(850, 600)));
    assert_eq!(set.extended_input, Some(Extent::new(850, 600)));
    assert_eq!(set.extended_output, Some(Extent::new(850, 600)));
    assert_eq!(set.staging, None);
    assert_eq!(set.render_target, None);
    assert!(!cache.ensure_extended(850, 600));
    assert_eq!(cache.snapshot(), set);
    assert!(cache.ensure_extended(800, 600));
    let set = cache.snapshot();
    assert_eq!(set.extended, Some(Extent::new(800, 600)));
    assert_eq!(set.extended_input, Some(Extent::new(800, 600)));
    assert_eq!(set.extended_output, Some(Extent::new(800, 600)));
}

#[test]
fn ensure_render_target_takes_the_client_size() {
    let mut cache = ResourceCache::new(Extent::new(800, 600));
    assert!(cache.ensure_render_target());
    assert_eq!(cache.snapshot().render_target, Some(Extent::new(800, 600)));
    assert!(!cache.ensure_render_target());
    assert_eq!(cache.snapshot().render_target, Some(Extent::new(800, 600)));
}

#[test]
fn invalidate_all_clears_everything() {
    let mut cache = ResourceCache::new(Extent::new(800, 600));
    cache.ensure_all(Extent::new(800, 600), Extent::new(850, 600));
    cache.invalidate_all();
    assert_eq!(cache.snapshot(), empty(Extent::new(800, 600)));
    cache.invalidate_all();
    assert_eq!(cache.snapshot(), empty(Extent::new(800, 600)));
}

#[test]
fn ensure_all_orders_what_is_missing() {
    let client = Extent::new(800, 600);
    let mut cache = ResourceCache::new(client);
    let first = cache.ensure_all(client, Extent::new(850, 600));
    assert_eq!(
        first,
        Provisioning {
            staging: Some(client),
            extended: Some(Extent::new(850, 600)),
            render_target: true,
        }
    );
    assert!(!first.is_nothing());
    let set = cache.snapshot();
    assert_eq!(
        set,
        ResourceSet {
            client,
            staging: Some(client),
            extended: Some(Extent::new(850, 600)),
            extended_input: Some(Extent::new(850, 600)),
            extended_output: Some(Extent::new(850, 600)),
            render_target: Some(client),
        }
    );
    let second = cache.ensure_all(client, Extent::new(850, 600));
    assert_eq!(second, Provisioning { staging: None, extended: None, render_target: false });
    assert!(second.is_nothing());
    assert_eq!(cache.snapshot(), set);
    // The window moved: only the extended surface changes size.
    let third = cache.ensure_all(client, Extent::new(800, 600));
    assert_eq!(
        third,
        Provisioning { staging: None, extended: Some(Extent::new(800, 600)), render_target: false }
    );
}

#[test]
fn resize_sequence_settles_on_the_latest_size() {
    let mut cache = ResourceCache::new(Extent::new(1280, 720));
    cache.ensure_all(Extent::new(1280, 720), Extent::new(1280, 720));
    let sizes = [(1000, 700), (900, 650), (800, 600)];
    for (w, h) in sizes {
        cache.resize(Extent::new(w, h));
        assert_eq!(cache.snapshot(), empty(Extent::new(w, h)));
    }
    let order = cache.ensure_all(Extent::new(800, 600), Extent::new(800, 600));
    assert_eq!(
        order,
        Provisioning {
            staging: Some(Extent::new(800, 600)),
            extended: Some(Extent::new(800, 600)),
            render_target: true,
        }
    );
    let set = cache.snapshot();
    assert_eq!(set.client, Extent::new(800, 600));
    assert_eq!(set.staging, Some(Extent::new(800, 600)));
    assert_eq!(set.render_target, Some(Extent::new(800, 600)));
    assert_eq!(set.extended, Some(Extent::new(800, 600)));
}

#[test]
fn ensure_all_with_another_client_size_counts_as_resize() {
    let mut cache = ResourceCache::new(Extent::new(1280, 720));
    cache.ensure_all(Extent::new(1280, 720), Extent::new(1280, 720));
    let order = cache.ensure_all(Extent::new(640, 480), Extent::new(1280, 720));
    assert_eq!(
        order,
        Provisioning {
            staging: Some(Extent::new(640, 480)),
            extended: Some(Extent::new(1280, 720)),
            render_target: true,
        }
    );
    let set = cache.snapshot();
    assert_eq!(set.client, Extent::new(640, 480));
    assert_eq!(set.staging, Some(Extent::new(640, 480)));
    assert_eq!(set.render_target, Some(Extent::new(640, 480)));
}
