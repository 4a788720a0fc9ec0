use vnikey::buffer::CharBuffer;

#[test]
fn test_clear() {
    let mut buffer = CharBuffer::new();
    buffer.push('a');
    buffer.push('b');
    assert_eq!(buffer.len(), 2);
    buffer.clear();
    assert_eq!(buffer.len(), 0);
    assert!(buffer.is_empty());
}

#[test]
fn test_last() {
    let mut buffer = CharBuffer::new();
    assert_eq!(buffer.last(), None);
    buffer.push('a');
    assert_eq!(buffer.last(), Some('a'));
    buffer.push('b');
    assert_eq!(buffer.last(), Some('b'));
    buffer.pop();
    assert_eq!(buffer.last(), Some('a'));
    buffer.clear();
    assert_eq!(buffer.last(), None);
}

#[test]
fn test_push_full() {
    let mut buffer = CharBuffer::new();
    for i in 0..16u8 {
        assert!(buffer.push(char::from(b'a' + i)));
    }
    assert_eq!(buffer.len(), 16);
    assert!(buffer.is_full());
    assert!(!buffer.push('z'));
    assert_eq!(buffer.len(), 16);
    assert!(buffer.is_full());
}

#[test]
fn test_remove() {
    let mut buffer = CharBuffer::new();
    buffer.push('a');
    buffer.push('b');
    buffer.push('c');
    buffer.push('d');

    buffer.remove(1);
    assert_eq!(buffer.len(), 3);
    assert_eq!(buffer.as_slice(), &['a', 'c', 'd']);

    buffer.remove(2);
    assert_eq!(buffer.len(), 2);
    assert_eq!(buffer.as_slice(), &['a', 'c']);

    buffer.remove(0);
    assert_eq!(buffer.len(), 1);
    assert_eq!(buffer.as_slice(), &['c']);

    buffer.remove(0);
    assert_eq!(buffer.len(), 0);
    assert!(buffer.is_empty());
}

#[test]
fn test_pop_does_not_corrupt() {
    let mut buffer = CharBuffer::new();
    buffer.push('x');
    buffer.push('y');
    let popped = buffer.pop();
    assert_eq!(popped, Some('y'));
    assert_eq!(buffer.len(), 1);
    // Subsequent push should overwrite correctly
    buffer.push('z');
    assert_eq!(buffer.as_slice(), &['x', 'z']);
}

#[test]
fn buffer_snapshot_restore_roundtrip() {
    let mut b = CharBuffer::new();
    for c in "việt".chars() {
        b.push(c);
    }
    let (data, len) = b.snapshot();
    let mut other = CharBuffer::new();
    other.push('x');
    other.restore(&data, len);
    assert_eq!(other, b);
    assert_eq!(other.to_string(), "việt");
}

#[test]
fn buffer_pop_undoes_push() {
    let mut b = CharBuffer::new();
    b.push('a');
    let before = b;
    assert!(b.push('ư'));
    assert_eq!(b.pop(), Some('ư'));
    assert_eq!(b, before);
    for _ in 0..20 {
        b.push('z');
    }
    let full = b;
    assert!(!b.push('q'));
    assert_eq!(b, full);
}
