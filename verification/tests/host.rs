use hostio::fs::{File, OpenFlags, Origin};
use hostio::io::read::{Error, Read};
use hostio::io::writerc::WriteError;
use std::cell::RefCell;
use std::collections::HashMap;

/// One entry of the descriptor table.
struct Entry {
    name: Vec<u8>,
    position: usize,
    readable: bool,
    writable: bool,
    append: bool,
}

/// A host kept in memory: files by name, and a descriptor table. It answers
/// as a POSIX host does, for the flags that these tests use.
struct MemoryHost {
    files: HashMap<Vec<u8>, Vec<u8>>,
    table: Vec<Option<Entry>>,
    seen_paths: Vec<Vec<u8>>,
    released: Vec<i32>,
    accept_at_most: usize,
}

impl MemoryHost {
    fn new() -> Self {
        MemoryHost {
            files: HashMap::new(),
            table: Vec::new(),
            seen_paths: Vec::new(),
            released: Vec::new(),
            accept_at_most: usize::MAX,
        }
    }

    fn open(&mut self, path: &[u8], flags: i32) -> i32 {
        let end = path.iter().position(|b| *b == 0).expect("a NUL-terminated path");
        let name = path[..end].to_vec();
        self.seen_paths.push(name.clone());
        let exists = self.files.contains_key(&name);
        if exists && flags & libc::O_CREAT != 0 && flags & libc::O_EXCL != 0 {
            return -1;
        }
        if !exists {
            if flags & libc::O_CREAT == 0 {
                return -1;
            }
            self.files.insert(name.clone(), Vec::new());
        }
        let access = flags & libc::O_ACCMODE;
        let writable = access == libc::O_WRONLY || access == libc::O_RDWR;
        if writable && flags & libc::O_TRUNC != 0 {
            self.files.get_mut(&name).unwrap().clear();
        }
        self.table.push(Some(Entry {
            name,
            position: 0,
            readable: access == libc::O_RDONLY || access == libc::O_RDWR,
            writable,
            append: flags & libc::O_APPEND != 0,
        }));
        (self.table.len() - 1) as i32
    }

    fn entry(&mut self, fd: i32) -> Option<&mut Entry> {
        self.table.get_mut(usize::try_from(fd).ok()?)?.as_mut()
    }

    fn lseek(&mut self, fd: i32, offset: i64, whence: i32) -> i64 {
        let len = match self.entry(fd) {
            Some(entry) => entry.name.clone(),
            None => return -1,
        };
        let len = self.files[&len].len() as i64;
        let entry = self.entry(fd).unwrap();
        let base = match whence {
            libc::SEEK_SET => 0,
            libc::SEEK_CUR => entry.position as i64,
            libc::SEEK_END => len,
            _ => return -1,
        };
        let target = base + offset;
        if target < 0 {
            return -1;
        }
        entry.position = target as usize;
        target
    }

    fn read(&mut self, fd: i32, buf: &mut [u8], count: usize) -> isize {
        let (name, position) = match self.entry(fd) {
            Some(entry) if entry.readable => (entry.name.clone(), entry.position),
            _ => return -1,
        };
        let data = &self.files[&name];
        let start = position.min(data.len());
        let n = count.min(buf.len()).min(data.len() - start);
        buf[..n].copy_from_slice(&data[start..start + n]);
        self.entry(fd).unwrap().position = position + n;
        n as isize
    }

    fn write(&mut self, fd: i32, bytes: &[u8]) -> isize {
        let limit = self.accept_at_most;
        let (name, position, append) = match self.entry(fd) {
            Some(entry) if entry.writable => (entry.name.clone(), entry.position, entry.append),
            _ => return -1,
        };
        let data = self.files.get_mut(&name).unwrap();
        let start = if append { data.len() } else { position };
        let n = bytes.len().min(limit);
        if data.len() < start + n {
            data.resize(start + n, 0);
        }
        data[start..start + n].copy_from_slice(&bytes[..n]);
        self.entry(fd).unwrap().position = start + n;
        n as isize
    }

    fn close(&mut self, fd: i32) -> i32 {
        match usize::try_from(fd).ok().and_then(|i| self.table.get_mut(i)) {
            Some(slot) if slot.is_some() => {
                *slot = None;
                self.released.push(fd);
                0
            }
            _ => -1,
        }
    }

    fn open_descriptors(&self) -> Vec<i32> {
        (0..self.table.len()).filter(|i| self.table[*i].is_some()).map(|i| i as i32).collect()
    }
}

fn open(host: &mut MemoryHost, path: &[u8], flags: OpenFlags) -> Option<File> {
    let call = File::open(path, flags)?;
    let fd = host.open(call.path().as_bytes(), call.flags());
    call.finish(fd)
}

fn write(host: &mut MemoryHost, file: &mut File, text: &str) -> Result<(), WriteError> {
    let call = file.write_str(text);
    let written = host.write(call.fd, call.bytes);
    call.finish(written)
}

fn read(host: &mut MemoryHost, file: &File, buf: &mut [u8]) -> Option<usize> {
    let call = file.read_bytes(buf);
    let result = host.read(call.fd, buf, call.count);
    call.finish(result)
}

fn seek(host: &mut MemoryHost, file: &mut File, offset: isize, origin: Origin) -> Option<isize> {
    let call = file.seek(offset, origin);
    let res = host.lseek(call.fd, call.offset, call.whence);
    call.finish(res)
}

fn close(host: &mut MemoryHost, file: File) -> bool {
    let call = file.close();
    let res = host.close(call.fd);
    call.finish(res)
}

/// A file on the host in memory, as a byte source.
struct Source<'a> {
    host: &'a RefCell<MemoryHost>,
    file: File,
}

impl Read for Source<'_> {
    fn read_bytes(&self, buf: &mut [u8]) -> Option<usize> {
        read(&mut self.host.borrow_mut(), &self.file, buf)
    }
}

#[test]
fn written_bytes_are_read_back() {
    let mut host = MemoryHost::new();
    let text = "The quick brown fox\njumps over the lazy dog\n";
    let mut file = open(&mut host, b"round.trip", OpenFlags::new().write_only().create().trunc())
        .expect("the file is created");
    assert_eq!(write(&mut host, &mut file, text), Ok(()));
    assert!(close(&mut host, file));

    let file = open(&mut host, b"round.trip", OpenFlags::new().read_only()).expect("it is there");
    let mut buf = [0u8; 128];
    let n = read(&mut host, &file, &mut buf).expect("the read succeeds");
    assert_eq!(&buf[..n], text.as_bytes());
    assert_eq!(read(&mut host, &file, &mut buf), Some(0));
    assert!(close(&mut host, file));
}

#[test]
fn written_text_is_read_back_as_text() {
    let host = RefCell::new(MemoryHost::new());
    let mut file =
        open(&mut host.borrow_mut(), b"text\0", OpenFlags::new().read_write().create()).unwrap();
    assert_eq!(write(&mut host.borrow_mut(), &mut file, "größer"), Ok(()));
    assert_eq!(seek(&mut host.borrow_mut(), &mut file, 0, Origin::Beginning), Some(0));
    let source = Source { host: &host, file };
    assert_eq!(source.read_str(vec![0; 32]).unwrap(), "größer");
    assert!(close(&mut host.borrow_mut(), source.file));
}

#[test]
fn same_file_under_every_termination() {
    let mut host = MemoryHost::new();
    let long: Vec<u8> = (0..400).map(|i| b'a' + (i % 26) as u8).collect();
    let mut terminated = long.clone();
    terminated.push(0);
    let mut file = open(&mut host, &long, OpenFlags::new().write_only().create()).unwrap();
    assert_eq!(write(&mut host, &mut file, "one"), Ok(()));
    assert!(close(&mut host, file));
    let file = open(&mut host, &terminated, OpenFlags::new().read_only()).expect("same name");
    let mut buf = [0u8; 8];
    assert_eq!(read(&mut host, &file, &mut buf), Some(3));
    assert_eq!(&buf[..3], b"one");
    assert!(close(&mut host, file));

    let mut file = open(&mut host, b"short", OpenFlags::new().write_only().create()).unwrap();
    assert_eq!(write(&mut host, &mut file, "two"), Ok(()));
    assert!(close(&mut host, file));
    let file = open(&mut host, b"short\0", OpenFlags::new().read_only()).expect("same name");
    assert_eq!(read(&mut host, &file, &mut buf), Some(3));
    assert_eq!(&buf[..3], b"two");
    assert!(close(&mut host, file));
    assert_eq!(host.seen_paths, vec![long.clone(), long, b"short".to_vec(), b"short".to_vec()]);
}

#[test]
fn seek_to_start_reads_what_was_written_first() {
    let mut host = MemoryHost::new();
    let mut file = open(&mut host, b"seek", OpenFlags::new().read_write().create()).unwrap();
    assert_eq!(write(&mut host, &mut file, "first,"), Ok(()));
    assert_eq!(write(&mut host, &mut file, "second"), Ok(()));
    assert_eq!(seek(&mut host, &mut file, 0, Origin::Beginning), Some(0));
    let mut buf = [0u8; 6];
    assert_eq!(read(&mut host, &file, &mut buf), Some(6));
    assert_eq!(&buf, b"first,");
    assert_eq!(seek(&mut host, &mut file, -6, Origin::End), Some(6));
    assert_eq!(read(&mut host, &file, &mut buf), Some(6));
    assert_eq!(&buf, b"second");
    assert_eq!(seek(&mut host, &mut file, -3, Origin::Current), Some(9));
    assert!(close(&mut host, file));
}

#[test]
fn reading_past_the_end_is_end_of_stream() {
    let mut host = MemoryHost::new();
    let mut file = open(&mut host, b"past", OpenFlags::new().read_write().create()).unwrap();
    assert_eq!(write(&mut host, &mut file, "0123456789"), Ok(()));
    assert_eq!(seek(&mut host, &mut file, 1000, Origin::Beginning), Some(1000));
    let mut buf = [0xaau8; 16];
    assert_eq!(read(&mut host, &file, &mut buf), Some(0));
    assert_eq!(buf, [0xaau8; 16]);
    assert_eq!(seek(&mut host, &mut file, 5, Origin::End), Some(15));
    assert_eq!(read(&mut host, &file, &mut buf), Some(0));
    assert!(close(&mut host, file));
}

#[test]
fn seek_before_the_start_fails() {
    let mut host = MemoryHost::new();
    let mut file = open(&mut host, b"neg", OpenFlags::new().read_write().create()).unwrap();
    assert_eq!(seek(&mut host, &mut file, -1, Origin::Beginning), None);
    assert_eq!(seek(&mut host, &mut file, 0, Origin::Current), Some(0));
    assert!(close(&mut host, file));
}

#[test]
fn exclusive_create_fails_on_an_existing_path() {
    let mut host = MemoryHost::new();
    let exclusive = OpenFlags::new().write_only().create().excl();
    let first = open(&mut host, b"only.once", exclusive).expect("the path is new");
    assert!(close(&mut host, first));
    assert!(open(&mut host, b"only.once", exclusive).is_none());
    assert!(open(&mut host, b"only.once\0", exclusive).is_none());
    assert!(open(&mut host, b"only.once", OpenFlags::new().excl().create().write_only()).is_none());
    assert_eq!(host.open_descriptors(), Vec::<i32>::new());
}

#[test]
fn exclusive_create_succeeds_on_a_new_path() {
    let mut host = MemoryHost::new();
    let exclusive = OpenFlags::new().read_write().create().excl();
    let one = open(&mut host, b"a", exclusive).expect("a is new");
    let two = open(&mut host, b"b", exclusive).expect("b is new");
    assert_ne!(one.fd(), two.fd());
    assert!(close(&mut host, one));
    assert!(close(&mut host, two));
}

#[test]
fn missing_file_does_not_open() {
    let mut host = MemoryHost::new();
    assert!(open(&mut host, b"nowhere", OpenFlags::new().read_only()).is_none());
    assert!(host.table.is_empty());
}

#[test]
fn closing_releases_exactly_one_descriptor() {
    let mut host = MemoryHost::new();
    let flags = OpenFlags::new().read_write().create();
    let a = open(&mut host, b"a", flags).unwrap();
    let b = open(&mut host, b"b", flags).unwrap();
    let c = open(&mut host, b"c", flags).unwrap();
    let (fd_a, fd_b, fd_c) = (a.fd(), b.fd(), c.fd());
    assert!(close(&mut host, b));
    assert_eq!(host.released, vec![fd_b]);
    assert_eq!(host.open_descriptors(), vec![fd_a, fd_c]);
    let mut buf = [0u8; 4];
    assert_eq!(read(&mut host, &a, &mut buf), Some(0));
    assert_eq!(read(&mut host, &c, &mut buf), Some(0));
    assert!(close(&mut host, a));
    assert!(close(&mut host, c));
    assert_eq!(host.released, vec![fd_b, fd_a, fd_c]);
}

#[test]
fn short_write_is_reported_as_failure() {
    let mut host = MemoryHost::new();
    let mut file = open(&mut host, b"short", OpenFlags::new().write_only().create()).unwrap();
    host.accept_at_most = 4;
    assert_eq!(write(&mut host, &mut file, "too long"), Err(WriteError));
    assert_eq!(write(&mut host, &mut file, "fits"), Ok(()));
    assert!(close(&mut host, file));
}

#[test]
fn write_to_a_read_only_file_fails() {
    let mut host = MemoryHost::new();
    let file = open(&mut host, b"ro", OpenFlags::new().write_only().create()).unwrap();
    assert!(close(&mut host, file));
    let mut file = open(&mut host, b"ro", OpenFlags::new().read_only()).unwrap();
    assert_eq!(write(&mut host, &mut file, "x"), Err(WriteError));
    assert!(close(&mut host, file));
}

#[test]
fn failed_read_hands_the_buffer_back() {
    let host = RefCell::new(MemoryHost::new());
    let file = open(&mut host.borrow_mut(), b"wo", OpenFlags::new().write_only().create()).unwrap();
    let source = Source { host: &host, file };
    let err: Error = source.read_str(vec![3; 10]).unwrap_err();
    assert!(err.utf8_error().is_none());
    assert_eq!(err.into_bytes(), vec![3; 10]);
    assert!(close(&mut host.borrow_mut(), source.file));
}

#[test]
fn append_writes_at_the_end() {
    let mut host = MemoryHost::new();
    let mut file = open(&mut host, b"log", OpenFlags::new().write_only().create()).unwrap();
    assert_eq!(write(&mut host, &mut file, "one\n"), Ok(()));
    assert!(close(&mut host, file));
    let mut file = open(&mut host, b"log", OpenFlags::new().write_only().append()).unwrap();
    assert_eq!(write(&mut host, &mut file, "two\n"), Ok(()));
    assert!(close(&mut host, file));
    assert_eq!(host.files[&b"log".to_vec()], b"one\ntwo\n");
}
