use orrery::buffers::{
    halves_to_le_bytes, pack_indices, words_to_le_bytes, IndexBuffer, MeshError, UniformBlock,
    UNIFORM_BLOCK_BYTES,
};

#[test]
fn words_are_written_least_significant_byte_first() {
    assert_eq!(words_to_le_bytes(&vec![0x0403_0201, 0xdead_beef]), vec![1, 2, 3, 4, 0xef, 0xbe, 0xad, 0xde]);
    assert_eq!(halves_to_le_bytes(&vec![0x0201, 0xbeef]), vec![1, 2, 0xef, 0xbe]);
}

#[test]
fn uniform_block_has_documented_layout() {
    let mut view_proj = [0u32; 16];
    let mut model = [0u32; 16];
    for i in 0..16 {
        view_proj[i] = i as u32 + 1;
        model[i] = 0x100 + i as u32;
    }
    let block = UniformBlock {
        view_proj,
        model,
        color: [0x200, 0x201, 0x202, 0x203],
        time: 2.5f32.to_bits(),
        orbital_radius: 7.0f32.to_bits(),
        orbital_speed: 1.6f32.to_bits(),
    };
    let bytes = block.to_bytes();
    assert_eq!(bytes.len(), UNIFORM_BLOCK_BYTES);
    let word = |k: usize| u32::from_le_bytes([bytes[4 * k], bytes[4 * k + 1], bytes[4 * k + 2], bytes[4 * k + 3]]);
    assert_eq!(word(0), 1);
    assert_eq!(word(15), 16);
    assert_eq!(word(16), 0x100);
    assert_eq!(word(31), 0x10f);
    assert_eq!(word(32), 0x200);
    assert_eq!(word(35), 0x203);
    assert_eq!(f32::from_bits(word(36)), 2.5);
    assert_eq!(f32::from_bits(word(37)), 7.0);
    assert_eq!(f32::from_bits(word(38)), 1.6);
    assert_eq!(word(39), 0);
}

#[test]
fn index_width_follows_vertex_count() {
    let ix = vec![0u32, 1, 65535];
    match pack_indices(&ix, 65536).unwrap() {
        IndexBuffer::Narrow(v) => assert_eq!(v, vec![0u16, 1, 65535]),
        IndexBuffer::Wide(_) => panic!("65536 vertices fit 16-bit indices"),
    }
    match pack_indices(&ix, 65537).unwrap() {
        IndexBuffer::Wide(v) => assert_eq!(v, ix),
        IndexBuffer::Narrow(_) => panic!("65537 vertices need 32-bit indices"),
    }
}

#[test]
fn index_naming_no_vertex_is_refused() {
    let err = pack_indices(&vec![0, 1, 2, 3, 9, 2], 4).unwrap_err();
    assert_eq!(err, MeshError::IndexOutOfRange { position: 4, index: 9 });
    assert!(pack_indices(&vec![0, 1, 2], 0).is_err());
    assert_eq!(pack_indices(&Vec::new(), 0).unwrap().len(), 0);
}

#[test]
fn index_bytes_use_their_width() {
    let narrow = pack_indices(&vec![1, 0x0302], 10_000).unwrap();
    assert_eq!(narrow.to_bytes(), vec![1, 0, 2, 3]);
    let wide = pack_indices(&vec![1, 0x0403_0302], 0x0500_0000).unwrap();
    assert_eq!(wide.to_bytes(), vec![1, 0, 0, 0, 2, 3, 3, 4]);
}
