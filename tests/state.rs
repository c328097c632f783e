use gluster_volume_plugin::heketi::{Volume, VolumeId};
use gluster_volume_plugin::state::{State, VolumeMount};

fn vol(id: &str, name: &str) -> Volume {
    Volume { id: VolumeId::new(id.to_string()), name: name.to_string() }
}

fn id(s: &str) -> VolumeId {
    VolumeId::new(s.to_string())
}

/// A stand-in for the remote manager that counts the calls made to it.
struct Remote {
    volumes: Vec<Volume>,
    lists: usize,
    gets: usize,
}

impl Remote {
    fn list_volumes(&mut self) -> Vec<VolumeId> {
        self.lists += 1;
        self.volumes.iter().map(|v| v.id.clone()).collect()
    }

    fn get_volume(&mut self, id: &VolumeId) -> Volume {
        self.gets += 1;
        self.volumes.iter().find(|v| &v.id == id).unwrap().clone()
    }

    fn fetch_all(&mut self) -> Vec<Volume> {
        let ids = self.list_volumes();
        ids.iter().map(|i| self.get_volume(i)).collect()
    }
}

#[test]
fn cache_miss_refreshes_once() {
    let mut remote = Remote { volumes: vec![vol("a1", "alpha"), vol("b2", "beta")], lists: 0, gets: 0 };
    let mut cache = State::new();
    let found = match cache.get_id("x") {
        Some(i) => Some(i),
        None => {
            let volumes = remote.fetch_all();
            cache.get_id_refreshed("x", &volumes)
        }
    };
    assert_eq!(found, None);
    assert_eq!(remote.lists, 1);
    assert_eq!(remote.gets, 2);
}

#[test]
fn cache_hit_needs_no_refresh() {
    let mut cache = State::new();
    cache.set_id("db1".to_string(), id("abc123"));
    assert_eq!(cache.get_id("db1"), Some(id("abc123")));
    let st = cache.get("db1").unwrap();
    assert_eq!(st.id, id("abc123"));
    assert!(st.mount.is_none());
    assert!(cache.get("db2").is_none());
}

#[test]
fn refresh_lists_every_remote_volume() {
    let volumes = vec![vol("a1", "alpha"), vol("b2", "beta"), vol("c3", "gamma")];
    let mut cache = State::new();
    cache.set_id("stale".to_string(), id("zz"));
    let listing = cache.list_refreshed(&volumes);
    assert_eq!(listing.len(), 3);
    for v in &volumes {
        let entry = listing.iter().find(|(n, _)| n == &v.name).expect("listed");
        assert_eq!(entry.1.id, v.id);
        assert!(entry.1.mount.is_none());
    }
    assert_eq!(cache.get_id("stale"), None);
    assert_eq!(cache.list().len(), 3);
}

#[test]
fn refresh_keeps_later_duplicate() {
    let volumes = vec![vol("a1", "same"), vol("b2", "same")];
    let mut cache = State::new();
    cache.refresh(&volumes);
    assert_eq!(cache.get_id("same"), Some(id("b2")));
    assert_eq!(cache.list().len(), 1);
}

#[test]
fn set_id_replaces() {
    let mut cache = State::new();
    cache.set_id("n".to_string(), id("1"));
    cache.set_id("m".to_string(), id("2"));
    cache.set_id("n".to_string(), id("3"));
    assert_eq!(cache.get_id("n"), Some(id("3")));
    assert_eq!(cache.get_id("m"), Some(id("2")));
    assert_eq!(cache.list().len(), 2);
}

#[test]
fn pop_id_removes_hit() {
    let mut cache = State::new();
    cache.set_id("n".to_string(), id("1"));
    cache.set_id("m".to_string(), id("2"));
    assert_eq!(cache.pop_id("n"), Some(id("1")));
    assert_eq!(cache.get_id("n"), None);
    assert_eq!(cache.pop_id("n"), None);
    assert_eq!(cache.get_id("m"), Some(id("2")));
}

#[test]
fn pop_after_refresh() {
    let mut cache = State::new();
    let volumes = vec![vol("a1", "alpha"), vol("b2", "beta")];
    assert_eq!(cache.pop_id_refreshed("beta", &volumes), Some(id("b2")));
    assert_eq!(cache.get_id("beta"), None);
    assert_eq!(cache.get_id("alpha"), Some(id("a1")));
    assert_eq!(cache.pop_id_refreshed("nope", &volumes), None);
}

#[test]
fn lookup_after_refresh_finds_new_volume() {
    let mut cache = State::new();
    let volumes = vec![vol("a1", "alpha")];
    assert!(cache.get_refreshed("alpha", &volumes).is_some());
    assert_eq!(cache.get_id_refreshed("alpha", &volumes), Some(id("a1")));
}

#[test]
fn mount_count_is_positive() {
    assert!(VolumeMount::new("/mnt/x".to_string(), 0).is_none());
    let m = VolumeMount::new("/mnt/x".to_string(), 2).unwrap();
    assert_eq!(m.count(), 2);
    assert_eq!(m.path, "/mnt/x");
}
