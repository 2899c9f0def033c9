use glcore_buffers::buffervec::{BufferVec, BufferVecDynamic, BufferVecStatic, BufferWrite};
use glcore_buffers::coalesce::{coalesce_dirty, MAXIMUM_GAP};
use glcore_buffers::dirtybits::DirtyBits;
use glcore_buffers::glbuffer::{Buffer, BufferTarget, BufferUsage};

fn dynamic_u32(capacity: usize, len: usize, contents: Vec<u32>) -> BufferVecDynamic<u32> {
    let buffer = Buffer::new(7, BufferTarget::ArrayBuffer, capacity * 4, BufferUsage::DynamicDraw);
    let mut view = BufferVecStatic::<u32>::new(buffer);
    assert!(!view.resize(len));
    BufferVecDynamic::new(view, contents)
}

fn apply(device: &mut Vec<u32>, writes: &[BufferWrite<u32>]) {
    for w in writes {
        for (k, v) in w.data.iter().enumerate() {
            device[w.start + k] = *v;
        }
    }
}

fn spans(writes: &[BufferWrite<u32>]) -> Vec<(usize, usize)> {
    writes.iter().map(|w| (w.start, w.start + w.data.len() - 1)).collect()
}

#[test]
fn split_when_gap_exceeds_tolerance() {
    let mut b = dynamic_u32(32, 23, vec![0; 32]);
    for i in [0usize, 1, 2, 20, 21, 22] {
        b.set(i, &(i as u32 + 100));
    }
    let writes = b.flush();
    assert_eq!(spans(&writes), vec![(0, 2), (20, 22)]);
    assert_eq!(writes[0].data, vec![100, 101, 102]);
    assert_eq!(writes[1].data, vec![120, 121, 122]);
}

#[test]
fn bridge_when_gap_is_exactly_tolerance() {
    let mut b = dynamic_u32(32, 23, vec![0; 32]);
    for i in [0usize, 1, 2, 19, 20, 21] {
        b.set(i, &1);
    }
    let writes = b.flush();
    assert_eq!(spans(&writes), vec![(0, 21)]);
    assert_eq!(writes[0].data.len(), 22);
}

#[test]
fn gap_boundary_sixteen_clean_bridges() {
    let mut b = dynamic_u32(32, 32, vec![0; 32]);
    b.set(0, &5);
    b.set(17, &6);
    let writes = b.flush();
    assert_eq!(spans(&writes), vec![(0, 17)]);
    assert_eq!(writes[0].data[0], 5);
    assert_eq!(writes[0].data[17], 6);
    assert_eq!(MAXIMUM_GAP, 16);
}

#[test]
fn gap_boundary_seventeen_clean_splits() {
    let mut b = dynamic_u32(32, 32, vec![0; 32]);
    b.set(0, &5);
    b.set(18, &6);
    let writes = b.flush();
    assert_eq!(spans(&writes), vec![(0, 0), (18, 18)]);
}

#[test]
fn end_to_end_scenario() {
    let mut device = vec![0u32; 32];
    let mut b = dynamic_u32(32, 32, device.clone());
    b.set(3, &99);
    b.set(3, &7);
    let writes = b.flush();
    assert_eq!(writes.len(), 1);
    assert_eq!(writes[0].start, 3);
    assert_eq!(writes[0].data, vec![7]);
    apply(&mut device, &writes);
    assert_eq!(device[3], 7);
    b.set(10, &5);
    let realloc = b.resize(41, 5);
    assert!(realloc);
    assert!(!b.is_modified());
    assert_eq!(b.capacity(), 41);
    assert_eq!(b.len(), 41);
    assert_eq!(b.get(40), 5);
    assert_eq!(b.get_static().get_buffer().size(), 41 * 4);
}

#[test]
fn second_flush_writes_nothing() {
    let mut b = dynamic_u32(32, 32, vec![0; 32]);
    b.set(4, &1);
    b.set(9, &2);
    assert_eq!(b.flush().len(), 1);
    assert!(!b.is_modified());
    assert!(b.flush().is_empty());
}

#[test]
fn growth_clears_dirty_state() {
    let mut b = dynamic_u32(8, 8, vec![0; 8]);
    b.set(1, &3);
    b.set(6, &4);
    assert!(b.resize(20, 9));
    assert!(!b.is_modified());
    for i in 0..20 {
        assert!(!b.is_dirty(i));
    }
    assert_eq!(b.get(1), 3);
    assert_eq!(b.get(19), 9);
    assert!(b.flush().is_empty());
}

#[test]
fn resize_within_capacity_keeps_dirty_bits() {
    let mut b = dynamic_u32(16, 10, vec![0; 16]);
    b.set(2, &8);
    assert!(!b.resize(12, 1));
    assert!(b.is_modified());
    assert!(b.is_dirty(2));
    assert!(!b.is_dirty(11));
    assert_eq!(b.get(11), 0);
    assert_eq!(b.capacity(), 16);
    let writes = b.flush();
    assert_eq!(spans(&writes), vec![(2, 2)]);
}

#[test]
fn construction_reads_back_contents() {
    let contents: Vec<u32> = (0..16).map(|i| i * 3 + 1).collect();
    let b = dynamic_u32(16, 16, contents.clone());
    for i in 0..16 {
        assert_eq!(b.get(i), contents[i]);
    }
    assert!(!b.is_modified());
    assert_eq!(b.get_slice_of_data(4, 3), vec![13, 16, 19]);
    let mut b = b;
    assert!(b.flush().is_empty());
}

#[test]
fn shrink_after_resize_down() {
    let mut b = dynamic_u32(32, 32, vec![0; 32]);
    assert!(!b.resize(10, 0));
    assert!(b.shrink_to_fit());
    assert_eq!(b.len(), 10);
    assert_eq!(b.capacity(), 10);
    assert_eq!(b.get_buffer().size(), 10 * 4);
    assert!(!b.shrink_to_fit());
}

#[test]
fn mirror_and_device_agree_after_flush() {
    let mut device: Vec<u32> = (0..64).collect();
    let mut b = dynamic_u32(64, 64, device.clone());
    let mut expected = device.clone();
    for (i, v) in [(5usize, 50u32), (6, 60), (30, 300), (63, 630), (40, 400), (5, 55)] {
        b.set(i, &v);
        expected[i] = v;
    }
    b.set_slice_of_data(10, &[1, 2, 3, 4]);
    expected[10..14].copy_from_slice(&[1, 2, 3, 4]);
    let writes = b.flush();
    apply(&mut device, &writes);
    assert_eq!(device, expected);
    for i in 0..64 {
        assert_eq!(b.get(i), device[i]);
    }
}

#[test]
fn whole_buffer_dirty_is_one_write() {
    let mut b = dynamic_u32(20, 20, vec![0; 20]);
    b.set_slice_of_data(0, &[9; 20]);
    let writes = b.flush();
    assert_eq!(spans(&writes), vec![(0, 19)]);
}

#[test]
fn empty_slice_write_leaves_buffer_clean() {
    let mut b = dynamic_u32(4, 4, vec![0; 4]);
    b.set_slice_of_data(2, &[]);
    assert!(!b.is_modified());
    assert!(b.flush().is_empty());
}

#[test]
fn coalesce_dirty_ignores_flags_past_length() {
    let mut flags = vec![false; 40];
    flags[3] = true;
    flags[35] = true;
    let bits = DirtyBits::from_flags(&flags);
    assert_eq!(bits.to_flags(), flags);
    assert_eq!(coalesce_dirty(&bits, 30), vec![(3, 3)]);
    assert_eq!(coalesce_dirty(&bits, 40), vec![(3, 3), (35, 35)]);
    assert_eq!(coalesce_dirty(&DirtyBits::from_flags(&vec![]), 0), vec![]);
}

#[test]
fn dirty_flags_follow_writes() {
    let mut b = dynamic_u32(8, 8, vec![0; 8]);
    b.set(2, &1);
    b.set_slice_of_data(5, &[1, 1]);
    let dirty: Vec<bool> = (0..8).map(|i| b.is_dirty(i)).collect();
    assert_eq!(dirty, vec![false, false, true, false, false, true, true, false]);
    b.flush();
    assert!((0..8).all(|i| !b.is_dirty(i)));
}

#[test]
fn static_view_capacity_and_resize() {
    let buffer = Buffer::new(3, BufferTarget::ElementArrayBuffer, 10, BufferUsage::StaticDraw);
    let mut view = BufferVecStatic::<u32>::new(buffer);
    assert_eq!(view.capacity(), 2);
    assert!(view.is_empty());
    assert!(!view.resize(2));
    assert!(view.resize(5));
    assert_eq!(view.capacity(), 5);
    assert_eq!(view.get_buffer().size(), 20);
    assert_eq!(view.get_name(), 3);
    view.set_name(11);
    assert_eq!(view.get_name(), 11);
    view.set_target(BufferTarget::ArrayBuffer);
    assert_eq!(view.get_target(), BufferTarget::ArrayBuffer);
}

#[test]
fn conversion_back_flushes_first() {
    let mut b = dynamic_u32(16, 16, vec![0; 16]);
    b.set(1, &4);
    b.set(9, &5);
    let (view, writes) = b.into_static();
    assert_eq!(spans(&writes), vec![(1, 9)]);
    assert_eq!(view.len(), 16);
    assert_eq!(view.capacity(), 16);
    let c = dynamic_u32(16, 16, vec![0; 16]);
    let (buffer, writes) = c.into_buffer();
    assert!(writes.is_empty());
    assert_eq!(buffer.size(), 64);
}

#[test]
fn static_view_byte_range() {
    let buffer = Buffer::new(5, BufferTarget::ArrayBuffer, 64, BufferUsage::StaticDraw);
    let view = BufferVecStatic::<u32>::new(buffer);
    assert_eq!(view.byte_range(3, 4), (12, 16));
    assert_eq!(view.byte_range(0, 16), (0, 64));
}

fn describe<B: BufferVec<u32>>(b: &B) -> (usize, usize, bool, u32) {
    (BufferVec::len(b), BufferVec::capacity(b), BufferVec::is_empty(b), BufferVec::get_buffer(b).get_name())
}

#[test]
fn both_buffer_vectors_share_the_trait() {
    let buffer = Buffer::new(4, BufferTarget::ArrayBuffer, 32, BufferUsage::StaticDraw);
    let view = BufferVecStatic::<u32>::new(buffer);
    assert_eq!(describe(&view), (0, 8, true, 4));
    let b = dynamic_u32(8, 5, vec![0; 8]);
    assert_eq!(describe(&b), (5, 8, false, 7));
}
