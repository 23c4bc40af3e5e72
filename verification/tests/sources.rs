use picontrolx::caches::disk::{DataGenerator as DiskGenerator, DiskCache, Wake as DiskWake};
use picontrolx::caches::hello::{self, DataGenerator as HelloGenerator, HelloCache, HelloCacheData, Wake as HelloWake};
use picontrolx::caches::{disk, Cache, CacheManager, Handler, Producer, ProducerState, RegistrationError};
use picontrolx::public::event_queue::{Event, EventQ};
use picontrolx::public::{DiskEntry, DiskServiceData, PreservedServiceData, ServiceData, ServiceType};
use picontrolx::server::fetcher::{CacheHandlers, Fetcher};

fn sda() -> DiskEntry {
    DiskEntry {
        name: "sda".to_string(),
        size: 1024,
        uuid: "u1".to_string(),
        mounted: true,
        mount_point: "/mnt".to_string(),
        label: "L1".to_string(),
    }
}

#[test]
fn test_hello() {
    println!("Running...");
    let (cache, handler) = HelloCache::new();
    assert_eq!(cache.get_type(), ServiceType::_PRESERVED);
    assert_eq!(handler.get_type(), ServiceType::_PRESERVED);
    assert_eq!(handler.fetch(), ServiceData::Preserved(PreservedServiceData { data: 0 }));
    assert_eq!(cache.run().state, ProducerState::Created);
}

#[test]
fn service_type_slots() {
    assert_eq!(ServiceType::LEN, 2);
    assert_eq!(ServiceType::_PRESERVED.index(), 0);
    assert_eq!(ServiceType::DISK.index(), 1);
    assert_eq!(ServiceType::from_index(0), Some(ServiceType::_PRESERVED));
    assert_eq!(ServiceType::from_index(1), Some(ServiceType::DISK));
    assert_eq!(ServiceType::from_index(2), None);
}

#[test]
fn the_tags_of_the_sources() {
    assert_eq!(hello::THIS_TYPE, ServiceType::_PRESERVED);
    assert_eq!(disk::THIS_TYPE, ServiceType::DISK);
}

#[test]
fn hello_data_counts_from_zero() {
    let mut data = HelloCacheData::new();
    assert_eq!(data.value(), 0);
    data.generate();
    assert_eq!(data.value(), 1);
    data.generate();
    assert_eq!(data.value(), 2);
}

#[test]
fn hello_generator_primes_then_ticks() {
    let (_cache, mut handler) = HelloCache::new();
    let mut queue = EventQ::new();
    let mut generator = HelloGenerator::new();
    // A tick before the start does nothing.
    assert!(!generator.run(HelloWake::Tick, &mut handler.data, &mut queue));
    assert_eq!(queue.len(), 0);
    assert_eq!(generator.state, ProducerState::Created);
    // The start publishes the initial state.
    assert!(generator.run(HelloWake::Start, &mut handler.data, &mut queue));
    assert_eq!(generator.state, ProducerState::Running);
    assert_eq!(handler.fetch(), ServiceData::Preserved(PreservedServiceData { data: 0 }));
    // Every tick advances the counter and pushes one event.
    assert!(!generator.run(HelloWake::Tick, &mut handler.data, &mut queue));
    assert!(!generator.run(HelloWake::Tick, &mut handler.data, &mut queue));
    assert_eq!(handler.fetch(), ServiceData::Preserved(PreservedServiceData { data: 2 }));
    // A second start is ignored.
    assert!(!generator.run(HelloWake::Start, &mut handler.data, &mut queue));
    let hint = Event { service_type: ServiceType::_PRESERVED };
    assert_eq!(queue.drain(), vec![hint, hint, hint]);
    // Shutdown stops it for good.
    generator.run(HelloWake::Shutdown, &mut handler.data, &mut queue);
    assert_eq!(generator.state, ProducerState::Stopped);
    assert!(!generator.run(HelloWake::Tick, &mut handler.data, &mut queue));
    assert!(!generator.run(HelloWake::Start, &mut handler.data, &mut queue));
    assert_eq!(generator.state, ProducerState::Stopped);
    assert_eq!(handler.fetch(), ServiceData::Preserved(PreservedServiceData { data: 2 }));
    assert_eq!(queue.len(), 0);
}

#[test]
fn hello_generator_may_be_shut_down_before_it_starts() {
    let (_cache, mut handler) = HelloCache::new();
    let mut queue = EventQ::new();
    let mut generator = HelloGenerator::new();
    generator.run(HelloWake::Shutdown, &mut handler.data, &mut queue);
    assert_eq!(generator.state, ProducerState::Stopped);
    assert!(!generator.run(HelloWake::Start, &mut handler.data, &mut queue));
    assert_eq!(queue.len(), 0);
}

#[test]
fn disk_generator_stores_each_scan_and_pushes_one_event() {
    let (cache, mut handler) = DiskCache::new();
    assert_eq!(cache.get_type(), ServiceType::DISK);
    assert_eq!(handler.get_type(), ServiceType::DISK);
    assert_eq!(handler.fetch(), ServiceData::Disk(DiskServiceData { disks: Vec::new() }));
    let mut queue = EventQ::new();
    let mut generator = cache.run();
    assert_eq!(generator.state, ProducerState::Created);
    let scan = DiskServiceData { disks: vec![sda()] };
    assert!(generator.run(DiskWake::Scanned(scan), &mut handler.data, &mut queue));
    assert_eq!(generator.state, ProducerState::Running);
    assert_eq!(handler.fetch(), ServiceData::Disk(DiskServiceData { disks: vec![sda()] }));
    assert_eq!(handler.data.load(), DiskServiceData { disks: vec![sda()] });
    assert!(!generator.run(DiskWake::Scanned(DiskServiceData { disks: Vec::new() }), &mut handler.data, &mut queue));
    assert_eq!(handler.fetch(), ServiceData::Disk(DiskServiceData { disks: Vec::new() }));
    let hint = Event { service_type: ServiceType::DISK };
    assert_eq!(queue.drain(), vec![hint, hint]);
}

#[test]
fn disk_generator_ignores_scans_after_shutdown() {
    let (_cache, mut handler) = DiskCache::new();
    let mut queue = EventQ::new();
    let mut generator = DiskGenerator::new();
    assert!(!generator.run(DiskWake::Shutdown, &mut handler.data, &mut queue));
    assert_eq!(generator.state, ProducerState::Stopped);
    let scan = DiskServiceData { disks: vec![sda()] };
    assert!(!generator.run(DiskWake::Scanned(scan), &mut handler.data, &mut queue));
    assert_eq!(generator.state, ProducerState::Stopped);
    assert_eq!(handler.fetch(), ServiceData::Disk(DiskServiceData { disks: Vec::new() }));
    assert_eq!(queue.len(), 0);
}

#[test]
fn a_snapshot_is_a_copy() {
    let (_cache, mut handler) = DiskCache::new();
    handler.data.store(DiskServiceData { disks: vec![sda()] });
    let before = handler.fetch();
    handler.data.store(DiskServiceData { disks: Vec::new() });
    assert_eq!(before, ServiceData::Disk(DiskServiceData { disks: vec![sda()] }));
    assert_eq!(before, before.clone());
    // Two fetches without a change in between are equal.
    assert_eq!(handler.fetch(), handler.fetch());
}

#[test]
fn manager_registers_one_source_per_tag() {
    let mut manager = CacheManager::new();
    let (hello, _) = HelloCache::new();
    let (disk, _) = DiskCache::new();
    assert_eq!(manager.add_cache(ServiceType::_PRESERVED, Cache::Hello(hello)), Ok(()));
    assert_eq!(manager.add_cache(ServiceType::DISK, Cache::Disk(disk)), Ok(()));
    let (again, _) = DiskCache::new();
    assert_eq!(
        manager.add_cache(ServiceType::DISK, Cache::Disk(again)),
        Err(RegistrationError::Collision(ServiceType::DISK))
    );
    let (again, _) = DiskCache::new();
    assert_eq!(
        manager.add_cache(ServiceType::_PRESERVED, Cache::Disk(again)),
        Err(RegistrationError::Collision(ServiceType::_PRESERVED))
    );
}

#[test]
fn manager_creates_both_sources_once() {
    let mut manager = CacheManager::new();
    let handlers = manager.create_caches().unwrap();
    assert_eq!(handlers.len(), 2);
    assert_eq!(handlers[0].0, ServiceType::_PRESERVED);
    assert_eq!(handlers[0].1.get_type(), ServiceType::_PRESERVED);
    assert_eq!(handlers[0].1.fetch(), ServiceData::Preserved(PreservedServiceData { data: 0 }));
    assert_eq!(handlers[1].0, ServiceType::DISK);
    assert_eq!(handlers[1].1.get_type(), ServiceType::DISK);
    assert_eq!(handlers[1].1.fetch(), ServiceData::Disk(DiskServiceData { disks: Vec::new() }));
    assert_eq!(manager.create_caches().unwrap_err(), RegistrationError::Collision(ServiceType::_PRESERVED));
}

#[test]
fn manager_refuses_to_create_over_a_taken_tag() {
    let mut manager = CacheManager::new();
    let (disk, _) = DiskCache::new();
    manager.add_cache(ServiceType::DISK, Cache::Disk(disk)).unwrap();
    assert_eq!(manager.create_caches().unwrap_err(), RegistrationError::Collision(ServiceType::DISK));
    // Nothing was registered: the other tag is still free.
    let (hello, _) = HelloCache::new();
    assert_eq!(manager.add_cache(ServiceType::_PRESERVED, Cache::Hello(hello)), Ok(()));
}

#[test]
fn manager_run_starts_every_registered_producer() {
    let mut manager = CacheManager::new();
    let (handler, producers) = manager.run();
    assert!(producers.is_empty());
    assert!(handler.shutdown.drained());
    assert!(!handler.shutdown.wait_on());

    manager.create_caches().unwrap();
    let (mut handler, producers) = manager.run();
    assert_eq!(producers.len(), 2);
    assert!(matches!(&producers[0], Producer::Hello(g) if g.state == ProducerState::Created));
    assert!(matches!(&producers[1], Producer::Disk(g) if g.state == ProducerState::Created));
    // One receiver per producer.
    assert!(!handler.shutdown());
    assert!(handler.shutdown.wait_on());
    assert!(!handler.shutdown.release());
    assert!(handler.shutdown.release());
}

#[test]
fn manager_run_with_one_source() {
    let mut manager = CacheManager::new();
    let (disk, _) = DiskCache::new();
    manager.add_cache(ServiceType::DISK, Cache::Disk(disk)).unwrap();
    let (mut handler, producers) = manager.run();
    assert_eq!(producers.len(), 1);
    assert!(matches!(&producers[0], Producer::Disk(_)));
    assert!(!handler.shutdown());
    assert!(handler.shutdown.release());
}

#[test]
fn registry_of_handles_refuses_a_collision() {
    let mut handlers = CacheHandlers::new();
    assert!(handlers.get(ServiceType::DISK).is_none());
    let (_c, disk) = DiskCache::new();
    assert_eq!(handlers.add_cache(ServiceType::DISK, Handler::Disk(disk)), Ok(()));
    assert_eq!(handlers.get(ServiceType::DISK).unwrap().get_type(), ServiceType::DISK);
    assert!(handlers.get(ServiceType::_PRESERVED).is_none());
    let (_c, hello) = HelloCache::new();
    assert_eq!(
        handlers.add_cache(ServiceType::DISK, Handler::Hello(hello)),
        Err(RegistrationError::Collision(ServiceType::DISK))
    );
    // The first registration stands.
    assert!(matches!(handlers.get(ServiceType::DISK), Some(Handler::Disk(_))));
}

#[test]
fn add_caches_stops_at_the_first_collision() {
    let mut fetcher = Fetcher::new();
    let (_c, hello) = HelloCache::new();
    let (_c, first) = DiskCache::new();
    let (_c, mut second) = DiskCache::new();
    second.data.store(DiskServiceData { disks: vec![sda()] });
    let (_c, third) = HelloCache::new();
    let added = fetcher.add_caches(vec![
        (ServiceType::DISK, Handler::Disk(first)),
        (ServiceType::DISK, Handler::Disk(second)),
        (ServiceType::_PRESERVED, Handler::Hello(third)),
    ]);
    assert_eq!(added, Err(RegistrationError::Collision(ServiceType::DISK)));
    let view = fetcher.handler();
    assert_eq!(
        view.get_cache_handler(ServiceType::DISK).unwrap().fetch(),
        ServiceData::Disk(DiskServiceData { disks: Vec::new() })
    );
    assert!(view.get_cache_handler(ServiceType::_PRESERVED).is_none());
    assert_eq!(fetcher.add_cache(ServiceType::_PRESERVED, Handler::Hello(hello)), Ok(()));
    assert!(fetcher.handler().get_cache_handler(ServiceType::_PRESERVED).is_some());
    assert_eq!(fetcher.add_caches(Vec::new()), Ok(()));
}

#[test]
fn a_producer_changes_its_source_through_the_registry() {
    let mut handlers = CacheHandlers::new();
    let (_c, hello) = HelloCache::new();
    handlers.add_cache(ServiceType::_PRESERVED, Handler::Hello(hello)).unwrap();
    if let Some(Handler::Hello(handler)) = handlers.handler_mut(ServiceType::_PRESERVED) {
        handler.data.generate();
    }
    assert_eq!(
        handlers.get(ServiceType::_PRESERVED).unwrap().fetch(),
        ServiceData::Preserved(PreservedServiceData { data: 1 })
    );
    assert!(handlers.handler_mut(ServiceType::DISK).is_none());
}

#[test]
fn a_scan_that_found_nothing_new_is_not_published() {
    let (_cache, mut handler) = DiskCache::new();
    let mut queue = EventQ::new();
    let mut generator = DiskGenerator::new();
    // The initial population is published even where it is empty.
    assert!(generator.run(DiskWake::Scanned(DiskServiceData { disks: Vec::new() }), &mut handler.data, &mut queue));
    assert_eq!(queue.drain().len(), 1);
    assert!(queue.notified());
    assert!(!generator.run(DiskWake::Scanned(DiskServiceData { disks: Vec::new() }), &mut handler.data, &mut queue));
    assert_eq!(queue.len(), 0);
    assert!(generator.run(DiskWake::Scanned(DiskServiceData { disks: vec![sda()] }), &mut handler.data, &mut queue));
    assert!(!generator.run(DiskWake::Scanned(DiskServiceData { disks: vec![sda()] }), &mut handler.data, &mut queue));
    assert_eq!(queue.len(), 1);
    let mut changed = sda();
    changed.mounted = false;
    assert!(!generator.run(DiskWake::Scanned(DiskServiceData { disks: vec![changed] }), &mut handler.data, &mut queue));
    assert_eq!(queue.len(), 2);
    assert!(handler.data.holds(&DiskServiceData { disks: vec![{
        let mut d = sda();
        d.mounted = false;
        d
    }] }));
    assert!(!handler.data.holds(&DiskServiceData { disks: vec![sda()] }));
    assert!(!handler.data.holds(&DiskServiceData { disks: vec![sda(), sda()] }));
    assert!(!handler.data.holds(&DiskServiceData { disks: Vec::new() }));
}
