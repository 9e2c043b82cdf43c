use sc2f::ImageBuffer;
use std::cell::Cell;

type Buf = ImageBuffer<u32, u32>;

fn fetch(buf: &mut Buf, index: usize, decodes: &Cell<u32>) -> Result<u32, String> {
    buf.get_or_load(
        index,
        || {
            decodes.set(decodes.get() + 1);
            Ok::<u32, String>(100 + index as u32)
        },
        |h| Ok(h * 10),
    )
    .map(|img| *img)
}

fn prefetch(buf: &mut Buf, index: usize, spawns: &Cell<u32>) -> bool {
    buf.load_async(index, || {
        spawns.set(spawns.get() + 1);
        index as u32
    })
}

#[test]
fn prefetch_two_neighbours_then_fetch_keeps_window() {
    let mut buf: Buf = ImageBuffer::new(5, 3, 10);
    let spawns = Cell::new(0);
    let decodes = Cell::new(0);
    prefetch(&mut buf, 4, &spawns);
    prefetch(&mut buf, 6, &spawns);
    assert_eq!(fetch(&mut buf, 5, &decodes), Ok(105));
    assert_eq!(buf.cached_indices(), vec![4, 5, 6]);
    assert_eq!(spawns.get(), 2);
    assert_eq!(decodes.get(), 1);
}

#[test]
fn fetch_after_remove_decodes_again() {
    let mut buf: Buf = ImageBuffer::new(0, 3, 10);
    let decodes = Cell::new(0);
    assert_eq!(fetch(&mut buf, 5, &decodes), Ok(105));
    assert_eq!(decodes.get(), 1);
    assert_eq!(fetch(&mut buf, 5, &decodes), Ok(105));
    assert_eq!(decodes.get(), 1);
    buf.remove(5);
    assert!(!buf.contains(5));
    assert_eq!(fetch(&mut buf, 5, &decodes), Ok(105));
    assert_eq!(decodes.get(), 2);
}

#[test]
fn prefetch_twice_starts_one_task() {
    let mut buf: Buf = ImageBuffer::new(5, 3, 10);
    let spawns = Cell::new(0);
    assert!(prefetch(&mut buf, 6, &spawns));
    assert!(!prefetch(&mut buf, 6, &spawns));
    assert_eq!(spawns.get(), 1);
    assert!(buf.contains(6));
    assert!(!buf.is_loaded(6));
}

#[test]
fn prefetch_outside_window_is_swept_at_once() {
    let mut buf: Buf = ImageBuffer::new(0, 3, 10);
    let spawns = Cell::new(0);
    assert!(prefetch(&mut buf, 9, &spawns));
    assert!(!buf.contains(9));
    assert_eq!(buf.current_index(), 0);
}

#[test]
fn fetch_of_loading_index_joins_it() {
    let mut buf: Buf = ImageBuffer::new(5, 3, 10);
    let spawns = Cell::new(0);
    let decodes = Cell::new(0);
    prefetch(&mut buf, 6, &spawns);
    assert_eq!(fetch(&mut buf, 6, &decodes), Ok(60));
    assert_eq!(decodes.get(), 0);
    assert!(buf.is_loaded(6));
    assert_eq!(buf.current_index(), 6);
}

#[test]
fn fetch_evicts_everything_outside_new_window() {
    let mut buf: Buf = ImageBuffer::new(1, 3, 10);
    let spawns = Cell::new(0);
    let decodes = Cell::new(0);
    fetch(&mut buf, 1, &decodes).unwrap();
    prefetch(&mut buf, 0, &spawns);
    prefetch(&mut buf, 2, &spawns);
    assert_eq!(buf.cached_indices(), vec![0, 1, 2]);
    fetch(&mut buf, 8, &decodes).unwrap();
    assert_eq!(buf.cached_indices(), vec![8]);
    assert!(buf.is_loaded(8));
}

#[test]
fn even_size_window_keeps_two_each_side() {
    let mut buf: Buf = ImageBuffer::new(5, 4, 10);
    let spawns = Cell::new(0);
    let decodes = Cell::new(0);
    for i in [2, 3, 4, 6, 7, 8] {
        prefetch(&mut buf, i, &spawns);
    }
    fetch(&mut buf, 5, &decodes).unwrap();
    assert_eq!(buf.cached_indices(), vec![3, 4, 5, 6, 7]);
}

#[test]
fn size_is_clamped_to_item_count() {
    let mut buf: Buf = ImageBuffer::new(0, 50, 3);
    let spawns = Cell::new(0);
    let decodes = Cell::new(0);
    prefetch(&mut buf, 2, &spawns);
    fetch(&mut buf, 0, &decodes).unwrap();
    assert_eq!(buf.cached_indices(), vec![0]);
}

#[test]
fn failed_decode_leaves_cache_usable() {
    let mut buf: Buf = ImageBuffer::new(0, 3, 10);
    let r = buf.get_or_load(3, || Err::<u32, String>("broken".to_string()), |h| Ok(h));
    assert_eq!(r.err(), Some("broken".to_string()));
    assert!(!buf.contains(3));
    assert_eq!(buf.current_index(), 3);
    let decodes = Cell::new(0);
    assert_eq!(fetch(&mut buf, 4, &decodes), Ok(104));
}

#[test]
fn failed_join_drops_entry() {
    let mut buf: Buf = ImageBuffer::new(5, 3, 10);
    let spawns = Cell::new(0);
    prefetch(&mut buf, 4, &spawns);
    let r = buf.get_or_load(4, || Ok(1), |_h| Err::<u32, String>("task failed".to_string()));
    assert!(r.is_err());
    assert!(!buf.contains(4));
}

#[test]
fn current_entry_survives_its_own_fetch() {
    let mut buf: Buf = ImageBuffer::new(0, 1, 10);
    let decodes = Cell::new(0);
    fetch(&mut buf, 7, &decodes).unwrap();
    assert_eq!(buf.cached_indices(), vec![7]);
    assert!(buf.is_loaded(7));
}
