use shadow_render::light::{
    Light, LightBuffer, DEFAULT_LIMITCOS_INNER, DEFAULT_LIMITCOS_OUTER, PROJ_SIZE, RECORD_SIZE,
    RECORD_WORDS,
};

fn bits3(v: [f32; 3]) -> [u32; 3] {
    [v[0].to_bits(), v[1].to_bits(), v[2].to_bits()]
}

fn matrix(seed: u32) -> [u32; 16] {
    let mut m = [0u32; 16];
    for (i, x) in m.iter_mut().enumerate() {
        *x = (seed as f32 + i as f32 * 0.5).to_bits();
    }
    m
}

fn light(id: usize, x: f32) -> Light {
    Light::new(id, bits3([x, 2.1, 2.0]), bits3([1.0, 1.0, 1.0]), 1.0f32.to_bits(), 1.0f32.to_bits(), matrix(id as u32))
}

#[test]
fn new_light_defaults() {
    let l = light(0, 2.0);
    assert!(!l.is_spotlight);
    assert_eq!(l.limitcos_inner, 0.9f32.to_bits());
    assert_eq!(l.limitcos_outer, 1.0f32.to_bits());
    assert_eq!(DEFAULT_LIMITCOS_INNER, 0.9f32.to_bits());
    assert_eq!(DEFAULT_LIMITCOS_OUTER, 1.0f32.to_bits());
    assert_eq!(l.limitdir, [0, 0, 0]);
}

#[test]
fn record_layout_matches_gpu_struct() {
    let mut l = light(3, 2.0);
    l.is_spotlight = true;
    let w = l.to_raw().to_words();
    assert_eq!(w.len(), RECORD_WORDS);
    assert_eq!(w.len() as u64 * 4, RECORD_SIZE);
    assert_eq!(&w[0..16], &matrix(3)[..]);
    assert_eq!(&w[16..19], &bits3([2.0, 2.1, 2.0])[..]);
    assert_eq!(w[19], 0);
    assert_eq!(&w[20..23], &bits3([1.0, 1.0, 1.0])[..]);
    assert_eq!(w[23], 1.0f32.to_bits());
    assert_eq!(w[24], 1.0f32.to_bits());
    assert_eq!(w[25], 1);
    assert_eq!(w[26], 0.9f32.to_bits());
    assert_eq!(w[27], 1.0f32.to_bits());
    assert_eq!(&w[28..31], &[0, 0, 0]);
    assert_eq!(w[31], 0);
    assert_eq!(PROJ_SIZE, 16 * 4);
}

#[test]
fn to_raw_twice_is_identical() {
    let l = light(1, 4.5);
    let a = l.to_raw().to_words();
    let b = l.to_raw().to_words();
    assert_eq!(a, b);
    let c = l.clone().to_raw().to_words();
    assert_eq!(a, c);
}

#[test]
fn light_buffer_holds_all_records() {
    let lights = vec![light(0, 1.0), light(1, 2.0), light(2, 3.0)];
    let buf = LightBuffer::new(&lights);
    assert_eq!(buf.light_count(), 3);
    assert_eq!(buf.size(), 3 * RECORD_SIZE);
    let all = buf.contents();
    assert_eq!(all.len(), 3 * RECORD_WORDS);
    for (i, l) in lights.iter().enumerate() {
        assert_eq!(&all[i * RECORD_WORDS..(i + 1) * RECORD_WORDS], &l.to_raw().to_words()[..]);
    }
}

#[test]
fn empty_light_buffer() {
    let buf = LightBuffer::new(&Vec::new());
    assert_eq!(buf.light_count(), 0);
    assert_eq!(buf.size(), 0);
    assert!(buf.contents().is_empty());
}

#[test]
fn repopulate_writes_each_record_at_its_offset() {
    let lights = vec![light(0, 1.0), light(1, 2.0)];
    let mut buf = LightBuffer::new(&lights);
    let moved = vec![light(0, 7.0), light(1, 8.0)];
    let writes = buf.repopulate_lights(&moved);
    assert_eq!(writes.len(), 2);
    let mut spans: Vec<(u64, u64)> = Vec::new();
    for (i, w) in writes.iter().enumerate() {
        assert_eq!(w.offset, i as u64 * RECORD_SIZE);
        assert_eq!(w.words.len() as u64 * 4, RECORD_SIZE);
        assert_eq!(w.words, moved[i].to_raw().to_words());
        spans.push((w.offset, w.offset + w.words.len() as u64 * 4));
    }
    assert!(spans[0].1 <= spans[1].0);
    assert!(spans[1].1 <= buf.size());
    assert_eq!(buf.contents()[RECORD_WORDS + 16], 8.0f32.to_bits());
}

#[test]
fn repopulate_fewer_lights_keeps_other_records() {
    let lights = vec![light(0, 1.0), light(1, 2.0), light(2, 3.0)];
    let mut buf = LightBuffer::new(&lights);
    let before = buf.contents();
    let writes = buf.repopulate_lights(&vec![light(0, 9.0)]);
    assert_eq!(writes.len(), 1);
    assert_eq!(writes[0].offset, 0);
    let after = buf.contents();
    assert_eq!(after[16], 9.0f32.to_bits());
    assert_eq!(&after[RECORD_WORDS..], &before[RECORD_WORDS..]);
}

fn ne_bytes(words: &[u32]) -> Vec<u8> {
    words.iter().flat_map(|w| w.to_ne_bytes()).collect()
}

#[test]
fn write_bytes_are_the_record_words() {
    let lights = vec![light(0, 1.0), light(1, 2.0)];
    let mut buf = LightBuffer::new(&lights);
    let writes = buf.repopulate_lights(&lights);
    for w in &writes {
        let b = w.bytes();
        assert_eq!(b.len() as u64, RECORD_SIZE);
        assert_eq!(b, ne_bytes(&w.words));
    }
}

#[test]
fn buffer_bytes_cover_every_record() {
    let lights = vec![light(0, 1.0), light(1, 2.0), light(2, 5.0)];
    let buf = LightBuffer::new(&lights);
    let b = buf.bytes();
    assert_eq!(b.len() as u64, buf.size());
    assert_eq!(b, ne_bytes(&buf.contents()));
    assert_eq!(&b[RECORD_SIZE as usize + 64..RECORD_SIZE as usize + 68], &2.0f32.to_ne_bytes());
}

fn be_bytes(words: &[u32]) -> Vec<u8> {
    words.iter().flat_map(|w| w.to_be_bytes()).collect()
}

fn le_bytes(words: &[u32]) -> Vec<u8> {
    words.iter().flat_map(|w| w.to_le_bytes()).collect()
}

#[test]
fn bytes_are_words_in_one_byte_order() {
    let lights = vec![light(0, 1.5)];
    let buf = LightBuffer::new(&lights);
    let b = buf.bytes();
    let words = buf.contents();
    assert!(b == le_bytes(&words) || b == be_bytes(&words));
}
