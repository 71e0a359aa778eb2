use plugin_manager::directory::{
    regular_files, DirectoryEntry, DirectoryScan, EntryKind, ScanReply, ScanRequest,
};
use plugin_manager::effect::Effect;
use plugin_manager::loader::{LoadError, LoadOutcome};
use plugin_manager::{Instance, Plugin, PluginManager};

struct Named(&'static str);

impl Plugin for Named {
    fn name(&self) -> &'static str {
        self.0
    }
}

fn plugin(name: &'static str) -> LoadOutcome<u32> {
    LoadOutcome::Constructed { instance: Instance::new(Box::new(Named(name))), module: 7 }
}

fn file(path: &str) -> DirectoryEntry {
    DirectoryEntry::Found { path: path.to_string(), kind: EntryKind::RegularFile }
}

fn other(path: &str, kind: EntryKind) -> DirectoryEntry {
    DirectoryEntry::Found { path: path.to_string(), kind }
}

#[test]
fn empty_directory_name_is_a_no_op() {
    let mut manager: PluginManager<u32> = PluginManager::new();
    let mut scan = DirectoryScan::begin("");
    assert!(scan.is_finished());
    assert_eq!(scan.request(), ScanRequest::Finished);
    assert!(manager.load_directory(&mut scan, ScanReply::Listing(Ok(vec![file("a.so")]))).is_empty());
    assert!(manager.load_directory(&mut scan, ScanReply::Module(plugin("a"))).is_empty());
    assert!(manager.is_empty());
    assert_eq!(scan.finish(), Some(Ok(())));
}

#[test]
fn empty_directory_name_is_a_no_op_on_a_loaded_manager() {
    let mut manager: PluginManager<u32> = PluginManager::new();
    manager.load_plugin(plugin("first")).unwrap();
    let scan = DirectoryScan::begin("");
    assert_eq!(scan.request(), ScanRequest::Finished);
    assert_eq!(scan.finish(), Some(Ok(())));
    assert_eq!(manager.len(), 1);
}

#[test]
fn scan_asks_for_the_listing_first() {
    let scan = DirectoryScan::begin("/opt/plugins");
    assert!(!scan.is_finished());
    assert_eq!(scan.request(), ScanRequest::ReadDirectory("/opt/plugins".to_string()));
    assert_eq!(scan.finish(), None);
}

#[test]
fn unreadable_directory_fails_the_scan() {
    let mut manager: PluginManager<u32> = PluginManager::new();
    let mut scan = DirectoryScan::begin("/missing");
    let reply = ScanReply::Listing(Err("No such file or directory".to_string()));
    assert!(manager.load_directory(&mut scan, reply).is_empty());
    assert_eq!(scan.request(), ScanRequest::Finished);
    assert!(manager.is_empty());
    assert_eq!(
        scan.finish(),
        Some(Err(LoadError::DirectoryRead("No such file or directory".to_string())))
    );
}

#[test]
fn only_regular_files_are_candidates() {
    let listing = vec![
        other("plugins/nested", EntryKind::Directory),
        file("plugins/a.so"),
        DirectoryEntry::Unreadable,
        other("plugins/socket", EntryKind::Other),
        other("plugins/mystery", EntryKind::Unknown),
        file("plugins/b.so"),
    ];
    assert_eq!(regular_files(&listing), vec!["plugins/a.so", "plugins/b.so"]);
    assert!(regular_files(&Vec::new()).is_empty());
}

#[test]
fn scan_loads_every_regular_file_in_order() {
    let mut manager: PluginManager<u32> = PluginManager::new();
    let mut scan = DirectoryScan::begin("plugins");
    let listing = vec![
        file("plugins/a.so"),
        other("plugins/nested", EntryKind::Directory),
        file("plugins/b.so"),
    ];
    assert!(manager.load_directory(&mut scan, ScanReply::Listing(Ok(listing))).is_empty());
    assert_eq!(scan.request(), ScanRequest::OpenModule("plugins/a.so".to_string()));
    assert_eq!(
        manager.load_directory(&mut scan, ScanReply::Module(plugin("a"))).into_entries(),
        vec![Effect::LoadHook { instance: 0 }]
    );
    assert_eq!(scan.request(), ScanRequest::OpenModule("plugins/b.so".to_string()));
    assert!(!scan.is_finished());
    assert_eq!(
        manager.load_directory(&mut scan, ScanReply::Module(plugin("b"))).into_entries(),
        vec![Effect::LoadHook { instance: 1 }]
    );
    assert_eq!(scan.request(), ScanRequest::Finished);
    assert_eq!(scan.finish(), Some(Ok(())));
    assert_eq!(manager.name_of(0), Some("a"));
    assert_eq!(manager.name_of(1), Some("b"));
    assert_eq!(manager.module_count(), 2);
}

#[test]
fn directory_without_regular_files_finishes_at_once() {
    let mut manager: PluginManager<u32> = PluginManager::new();
    let mut scan = DirectoryScan::begin("plugins");
    let listing = vec![other("plugins/nested", EntryKind::Directory), DirectoryEntry::Unreadable];
    assert!(manager.load_directory(&mut scan, ScanReply::Listing(Ok(listing))).is_empty());
    assert!(scan.is_finished());
    assert_eq!(scan.finish(), Some(Ok(())));
    assert!(manager.is_empty());
}

#[test]
fn invalid_file_first_aborts_with_nothing_loaded() {
    let mut manager: PluginManager<u32> = PluginManager::new();
    let mut scan = DirectoryScan::begin("plugins");
    let listing = vec![file("plugins/notes.txt"), file("plugins/good.so")];
    manager.load_directory(&mut scan, ScanReply::Listing(Ok(listing)));
    assert_eq!(scan.request(), ScanRequest::OpenModule("plugins/notes.txt".to_string()));
    let failed = ScanReply::Module(LoadOutcome::OpenFailed("file too short".to_string()));
    assert!(manager.load_directory(&mut scan, failed).is_empty());
    assert_eq!(scan.request(), ScanRequest::Finished);
    assert!(manager.load_directory(&mut scan, ScanReply::Module(plugin("good"))).is_empty());
    assert!(manager.is_empty());
    assert_eq!(scan.finish(), Some(Err(LoadError::ModuleOpen("file too short".to_string()))));
}

#[test]
fn failure_keeps_what_was_loaded_before() {
    let mut manager: PluginManager<u32> = PluginManager::new();
    let mut scan = DirectoryScan::begin("plugins");
    let listing = vec![file("plugins/good.so"), file("plugins/bare.so"), file("plugins/late.so")];
    manager.load_directory(&mut scan, ScanReply::Listing(Ok(listing)));
    manager.load_directory(&mut scan, ScanReply::Module(plugin("good")));
    assert_eq!(scan.request(), ScanRequest::OpenModule("plugins/bare.so".to_string()));
    manager.load_directory(&mut scan, ScanReply::Module(LoadOutcome::NullInstance));
    assert!(scan.is_finished());
    assert_eq!(manager.len(), 1);
    assert_eq!(manager.module_count(), 1);
    assert_eq!(manager.name_of(0), Some("good"));
    assert_eq!(scan.finish(), Some(Err(LoadError::NullConstructor)));
}

#[test]
fn missing_symbol_aborts_the_scan() {
    let mut manager: PluginManager<u32> = PluginManager::new();
    let mut scan = DirectoryScan::begin("plugins");
    manager.load_directory(&mut scan, ScanReply::Listing(Ok(vec![file("plugins/libc.so")])));
    let reply = ScanReply::Module(LoadOutcome::FactoryMissing("undefined symbol".to_string()));
    manager.load_directory(&mut scan, reply);
    assert_eq!(scan.finish(), Some(Err(LoadError::SymbolNotFound("undefined symbol".to_string()))));
    assert!(manager.is_empty());
}

#[test]
fn reply_that_answers_no_request_is_discarded() {
    let mut manager: PluginManager<u32> = PluginManager::new();
    let mut scan = DirectoryScan::begin("plugins");
    assert!(manager.load_directory(&mut scan, ScanReply::Module(plugin("early"))).is_empty());
    assert!(manager.is_empty());
    assert_eq!(scan.request(), ScanRequest::ReadDirectory("plugins".to_string()));
    manager.load_directory(&mut scan, ScanReply::Listing(Ok(vec![file("plugins/a.so")])));
    let again = ScanReply::Listing(Ok(vec![file("plugins/z.so")]));
    assert!(manager.load_directory(&mut scan, again).is_empty());
    assert_eq!(scan.request(), ScanRequest::OpenModule("plugins/a.so".to_string()));
}
