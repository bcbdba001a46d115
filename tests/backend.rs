use bevy::app::{App, TaskPoolPlugin};
use bevy::asset::{AssetPlugin, AssetServer, Handle, LoadedFolder, UntypedHandle};
use bevy::ecs::resource::Resource;
use bevy::ecs::world::{Mut, World};
use resource_loading::{load_resource_assets, ResourceHandles};

struct Installed(u32);

impl Resource for Installed {}

type Finalizer = fn(&mut World, &UntypedHandle);

fn count_install(world: &mut World, _handle: &UntypedHandle) {
    world.resource_mut::<Installed>().0 += 1;
}

fn poll(app: &mut App, queue: &mut ResourceHandles<UntypedHandle, Finalizer>) {
    app.update();
    app.world_mut()
        .resource_scope(|world, server: Mut<AssetServer>| {
            load_resource_assets(queue, world, &server);
        });
}

#[test]
fn added_asset_is_installed_once() {
    let mut app = App::new();
    app.add_plugins((TaskPoolPlugin::default(), AssetPlugin::default()));
    app.insert_resource(Installed(0));
    let handle = app.world().resource::<AssetServer>().add(LoadedFolder { handles: Vec::new() }).untyped();
    let mut queue: ResourceHandles<UntypedHandle, Finalizer> = ResourceHandles::new();
    queue.register(handle, count_install);
    assert!(!queue.is_all_done());

    let mut polls = 0;
    while !queue.is_all_done() && polls < 50 {
        poll(&mut app, &mut queue);
        polls += 1;
    }
    assert!(queue.is_all_done());
    assert_eq!(app.world().resource::<Installed>().0, 1);
    assert_eq!(queue.finished_len(), 1);

    for _ in 0..3 {
        poll(&mut app, &mut queue);
    }
    assert_eq!(app.world().resource::<Installed>().0, 1);
}

#[test]
fn handle_never_loaded_stays_waiting() {
    let mut app = App::new();
    app.add_plugins((TaskPoolPlugin::default(), AssetPlugin::default()));
    app.insert_resource(Installed(0));
    let mut queue: ResourceHandles<UntypedHandle, Finalizer> = ResourceHandles::new();
    queue.register(Handle::<LoadedFolder>::default().untyped(), count_install);
    for _ in 0..5 {
        poll(&mut app, &mut queue);
    }
    assert!(!queue.is_all_done());
    assert_eq!(queue.waiting_len(), 1);
    assert_eq!(app.world().resource::<Installed>().0, 0);
}
