use xapian_rusty::ResourceHandle;

#[test]
fn null_handle_owns_nothing() {
    let mut handle: ResourceHandle<String> = ResourceHandle::null();
    assert!(handle.is_null());
    assert!(handle.get().is_none());
    assert!(handle.get_mut().is_none());
    assert_eq!(handle.release(), None);
}

#[test]
fn adopted_object_is_held() {
    let handle = ResourceHandle::adopt(String::from("native"));
    assert!(!handle.is_null());
    assert_eq!(handle.get().map(|native| native.as_str()), Some("native"));
}

#[test]
fn change_through_the_handle_stays_in_it() {
    let mut handle = ResourceHandle::adopt(vec![1u8]);
    handle.get_mut().expect("held").push(2);
    assert_eq!(handle.get(), Some(&vec![1u8, 2]));
}

#[test]
fn release_gives_the_object_once() {
    let mut handle = ResourceHandle::adopt(41u32);
    assert_eq!(handle.release(), Some(41));
    assert!(handle.is_null());
    assert_eq!(handle.release(), None);
    assert!(handle.is_null());
}

struct CountsDrops<'a>(&'a std::cell::Cell<u32>);

impl<'a> Drop for CountsDrops<'a> {
    fn drop(&mut self) {
        self.0.set(self.0.get() + 1);
    }
}

#[test]
fn object_is_destroyed_with_its_handle() {
    let drops = std::cell::Cell::new(0);
    {
        let _handle = ResourceHandle::adopt(CountsDrops(&drops));
        assert_eq!(drops.get(), 0);
    }
    assert_eq!(drops.get(), 1);
}

#[test]
fn object_is_destroyed_once_after_release() {
    let drops = std::cell::Cell::new(0);
    {
        let mut handle = ResourceHandle::adopt(CountsDrops(&drops));
        drop(handle.release());
        assert_eq!(drops.get(), 1);
        assert!(handle.release().is_none());
    }
    assert_eq!(drops.get(), 1);
}
