use dals::app_loader::AppLoader;
use dals::interfaces;
use dals::interfaces::{
    AuthorizerClient, DalsError, DecompressorClient, NonvolatileStorageClient, VerifierClient,
};
use dals::sequencer::Event;
use dals::session::{SessionOutcome, State};
use std::cell::RefCell;
use std::collections::HashMap;
use std::rc::Rc;

/// A buffer with an identity, so that the harness can follow it.
#[derive(Debug, PartialEq, Eq)]
struct Buffer {
    id: u32,
    bytes: Vec<u8>,
}

fn buffer(id: u32, len: usize) -> Buffer {
    Buffer { id, bytes: vec![id as u8; len] }
}

#[derive(Debug, Clone, Copy, PartialEq, Eq)]
enum Owner {
    DataSource,
    Loader,
    Decompressor,
    Storage,
}

/// One call of a collaborator, as the harness saw it.
#[derive(Debug, Clone, PartialEq, Eq)]
enum Call {
    DecompressBuffer { id: u32, length: usize },
    ReturnBuffer { id: u32 },
    ReturnError(DalsError),
    LoadingDone,
    ReleaseBuffer { id: u32 },
    Write { id: u32, offset: usize, length: usize },
    VerifyData { base_address: usize, length: usize },
    AuthorizeData { base_address: usize, length: usize },
}

/// What all collaborators of one loader share: the calls in the order in which
/// they were made, and who owns which buffer.
#[derive(Default)]
struct Harness {
    calls: Vec<Call>,
    owners: HashMap<u32, Owner>,
    shelf: HashMap<u32, Buffer>,
    /// Whether the storage refuses the next write.
    refuse_write: bool,
}

impl Harness {
    /// Moves a buffer from one owner to the next; it must be with `from`.
    fn transfer(&mut self, id: u32, from: Owner, to: Owner) {
        assert_eq!(self.owners.get(&id), Some(&from), "buffer {} is not with {:?}", id, from);
        self.owners.insert(id, to);
    }

    /// A collaborator takes a buffer from the loader and keeps it.
    fn accept(&mut self, buffer: Buffer, owner: Owner) {
        self.transfer(buffer.id, Owner::Loader, owner);
        assert!(self.shelf.insert(buffer.id, buffer).is_none());
    }

    /// A collaborator hands a buffer that it keeps to the loader.
    fn release(&mut self, id: u32, owner: Owner) -> Buffer {
        self.transfer(id, owner, Owner::Loader);
        self.shelf.remove(&id).unwrap()
    }

    fn held_by(&self, owner: Owner) -> Vec<u32> {
        let mut ids: Vec<u32> =
            self.owners.iter().filter(|(_, o)| **o == owner).map(|(id, _)| *id).collect();
        ids.sort();
        ids
    }
}

type Shared = Rc<RefCell<Harness>>;

struct DataSource(Shared);

struct Decompressor(Shared);

struct Storage(Shared);

struct Verifier(Shared);

struct Authorizer(Shared);

impl interfaces::AppLoaderClient<Buffer> for DataSource {
    fn return_buffer(&mut self, data_buffer: Buffer) {
        let mut h = self.0.borrow_mut();
        h.calls.push(Call::ReturnBuffer { id: data_buffer.id });
        h.accept(data_buffer, Owner::DataSource);
    }

    fn return_error(&mut self, error: DalsError) {
        self.0.borrow_mut().calls.push(Call::ReturnError(error));
    }

    fn loading_done(&mut self) {
        self.0.borrow_mut().calls.push(Call::LoadingDone);
    }
}

impl interfaces::Decompressor<Buffer> for Decompressor {
    fn decompress_buffer(&mut self, buffer: Buffer, length: usize) {
        let mut h = self.0.borrow_mut();
        h.calls.push(Call::DecompressBuffer { id: buffer.id, length });
        h.accept(buffer, Owner::Decompressor);
    }

    fn return_buffer(&mut self, decompressed_buffer: Buffer) {
        let mut h = self.0.borrow_mut();
        h.calls.push(Call::ReleaseBuffer { id: decompressed_buffer.id });
        h.accept(decompressed_buffer, Owner::Decompressor);
    }
}

impl interfaces::NonvolatileStorage<Buffer> for Storage {
    fn write(&mut self, buffer: Buffer, offset: usize, length: usize) -> Result<(), DalsError> {
        let mut h = self.0.borrow_mut();
        h.calls.push(Call::Write { id: buffer.id, offset, length });
        h.accept(buffer, Owner::Storage);
        if h.refuse_write {
            h.refuse_write = false;
            Err(DalsError::StorageWriteFailed)
        } else {
            Ok(())
        }
    }
}

impl interfaces::Verifier for Verifier {
    fn verify_data(&mut self, base_address: usize, length: usize) {
        self.0.borrow_mut().calls.push(Call::VerifyData { base_address, length });
    }
}

impl interfaces::Authorizer for Authorizer {
    fn authorize_data(&mut self, base_address: usize, length: usize) {
        self.0.borrow_mut().calls.push(Call::AuthorizeData { base_address, length });
    }
}

type Loader = AppLoader<Buffer, DataSource, Decompressor, Verifier, Authorizer, Storage>;

/// A loader with its harness. The test plays the asynchronous side of every
/// collaborator: it takes the buffer that the collaborator keeps and hands it
/// to the loader with the completion.
struct Bench {
    loader: Loader,
    shared: Shared,
}

const DECODED: u32 = 900;

impl Bench {
    fn new(base_address: usize, capacity: usize) -> Bench {
        let shared: Shared = Rc::new(RefCell::new(Harness::default()));
        shared.borrow_mut().owners.insert(DECODED, Owner::Decompressor);
        shared.borrow_mut().shelf.insert(DECODED, buffer(DECODED, 256));
        let loader = AppLoader::new(
            DataSource(shared.clone()),
            Decompressor(shared.clone()),
            Verifier(shared.clone()),
            Authorizer(shared.clone()),
            Storage(shared.clone()),
            base_address,
            capacity,
        );
        Bench { loader, shared }
    }

    fn start(&mut self, size: usize) -> Result<(), DalsError> {
        let result = interfaces::AppLoader::start_loading(&mut self.loader, size);
        self.settle();
        result
    }

    /// The data source delivers a fresh raw chunk.
    fn deliver(&mut self, id: u32, length: usize, completed: bool) -> Result<(), Buffer> {
        self.shared.borrow_mut().owners.insert(id, Owner::Loader);
        let result = interfaces::AppLoader::next_buffer(
            &mut self.loader,
            buffer(id, length),
            length,
            completed,
        );
        if let Err(rejected) = &result {
            self.shared.borrow_mut().transfer(rejected.id, Owner::Loader, Owner::DataSource);
        }
        self.settle();
        result
    }

    /// The decompressor completes: `raw` comes back with the decoded bytes.
    fn decompressed(&mut self, raw: u32, length: usize, status: Result<(), DalsError>) {
        let original = self.shared.borrow_mut().release(raw, Owner::Decompressor);
        let decoded = self.shared.borrow_mut().release(DECODED, Owner::Decompressor);
        self.loader.decompression_complete(decoded, length, original, status);
        self.settle();
    }

    /// The storage completes the write of the decoded buffer.
    fn written(&mut self, length: usize) {
        let decoded = self.shared.borrow_mut().release(DECODED, Owner::Storage);
        self.loader.write_done(decoded, length);
        self.settle();
    }

    fn verified(&mut self, error: Option<DalsError>) {
        self.loader.verification_complete(error);
        self.settle();
    }

    fn authorized(&mut self, status: Result<(), DalsError>) {
        self.loader.authorization_complete(status);
        self.settle();
    }

    /// Between two calls the loader holds no buffer.
    fn settle(&self) {
        assert_eq!(self.shared.borrow().held_by(Owner::Loader), Vec::<u32>::new());
    }

    /// The calls made since the last time this was asked.
    fn calls(&mut self) -> Vec<Call> {
        std::mem::take(&mut self.shared.borrow_mut().calls)
    }
}

#[test]
fn loader_single_chunk_scenario() {
    let mut bench = Bench::new(0, 4096);
    assert_eq!(bench.start(100), Ok(()));
    assert_eq!(bench.calls(), vec![]);

    assert!(bench.deliver(1, 100, true).is_ok());
    assert_eq!(bench.calls(), vec![Call::DecompressBuffer { id: 1, length: 100 }]);
    assert_eq!(bench.loader.state(), State::Decompressing);

    bench.decompressed(1, 100, Ok(()));
    assert_eq!(
        bench.calls(),
        vec![Call::ReturnBuffer { id: 1 }, Call::Write { id: DECODED, offset: 0, length: 100 }]
    );
    assert_eq!(bench.loader.state(), State::WritingFinal);

    bench.written(100);
    assert_eq!(
        bench.calls(),
        vec![
            Call::ReleaseBuffer { id: DECODED },
            Call::VerifyData { base_address: 0, length: 100 },
        ]
    );

    bench.verified(None);
    assert_eq!(bench.calls(), vec![Call::AuthorizeData { base_address: 0, length: 100 }]);

    bench.authorized(Ok(()));
    assert_eq!(bench.calls(), vec![Call::LoadingDone]);
    assert_eq!(bench.loader.state(), State::Done);
    assert_eq!(bench.loader.outcome(), Some(SessionOutcome::Done));
    assert!(bench.loader.session().is_none());
}

#[test]
fn loader_two_chunk_scenario() {
    let mut bench = Bench::new(0, 4096);
    assert_eq!(bench.start(100), Ok(()));

    assert!(bench.deliver(1, 25, false).is_ok());
    bench.decompressed(1, 40, Ok(()));
    bench.written(40);
    assert_eq!(bench.loader.state(), State::Idle);
    assert!(bench.deliver(2, 35, true).is_ok());
    bench.decompressed(2, 60, Ok(()));
    bench.written(60);

    assert_eq!(
        bench.calls(),
        vec![
            Call::DecompressBuffer { id: 1, length: 25 },
            Call::ReturnBuffer { id: 1 },
            Call::Write { id: DECODED, offset: 0, length: 40 },
            Call::ReleaseBuffer { id: DECODED },
            Call::DecompressBuffer { id: 2, length: 35 },
            Call::ReturnBuffer { id: 2 },
            Call::Write { id: DECODED, offset: 40, length: 60 },
            Call::ReleaseBuffer { id: DECODED },
            Call::VerifyData { base_address: 0, length: 100 },
        ]
    );
    assert_eq!(bench.loader.session().unwrap().bytes_written(), 100);
}

#[test]
fn loader_decompression_failure_scenario() {
    let mut bench = Bench::new(0, 4096);
    assert_eq!(bench.start(100), Ok(()));
    assert!(bench.deliver(1, 100, true).is_ok());
    bench.calls();

    bench.decompressed(1, 0, Err(DalsError::DecompressionFailed));
    assert_eq!(
        bench.calls(),
        vec![
            Call::ReturnBuffer { id: 1 },
            Call::ReleaseBuffer { id: DECODED },
            Call::ReturnError(DalsError::DecompressionFailed),
        ]
    );
    assert_eq!(bench.loader.state(), State::Idle);
    assert_eq!(
        bench.loader.outcome(),
        Some(SessionOutcome::Error(DalsError::DecompressionFailed))
    );
    assert_eq!(bench.start(100), Ok(()));
}

#[test]
fn loader_size_mismatch_scenario() {
    let mut bench = Bench::new(0, 4096);
    assert_eq!(bench.start(100), Ok(()));
    assert!(bench.deliver(1, 30, false).is_ok());
    bench.decompressed(1, 60, Ok(()));
    bench.written(60);
    assert!(bench.deliver(2, 30, true).is_ok());
    bench.calls();

    bench.decompressed(2, 41, Ok(()));
    let calls = bench.calls();
    assert_eq!(
        calls,
        vec![
            Call::ReturnBuffer { id: 2 },
            Call::ReleaseBuffer { id: DECODED },
            Call::ReturnError(DalsError::SizeMismatch),
        ]
    );
    assert!(bench.loader.session().is_none());
    assert_eq!(bench.loader.outcome(), Some(SessionOutcome::Error(DalsError::SizeMismatch)));
}

#[test]
fn loader_refused_write_ends_the_session() {
    let mut bench = Bench::new(0, 4096);
    assert_eq!(bench.start(100), Ok(()));
    assert!(bench.deliver(1, 30, false).is_ok());
    bench.calls();

    bench.shared.borrow_mut().refuse_write = true;
    bench.decompressed(1, 60, Ok(()));
    assert_eq!(
        bench.calls(),
        vec![
            Call::ReturnBuffer { id: 1 },
            Call::Write { id: DECODED, offset: 0, length: 60 },
            Call::ReturnError(DalsError::StorageWriteFailed),
        ]
    );
    assert_eq!(bench.loader.state(), State::Idle);
    assert!(bench.loader.session().is_none());
    assert_eq!(
        bench.loader.outcome(),
        Some(SessionOutcome::Error(DalsError::StorageWriteFailed))
    );
    assert_eq!(bench.shared.borrow().held_by(Owner::Storage), vec![DECODED]);
    assert_eq!(bench.start(100), Ok(()));
}

#[test]
fn loader_reports_each_stage_failure_once() {
    let mut storage = Bench::new(0, 4096);
    assert_eq!(storage.start(10), Ok(()));
    assert!(storage.deliver(1, 10, true).is_ok());
    storage.decompressed(1, 10, Ok(()));
    storage.calls();
    storage.written(9);
    assert_eq!(
        storage.calls(),
        vec![
            Call::ReleaseBuffer { id: DECODED },
            Call::ReturnError(DalsError::StorageWriteFailed),
        ]
    );

    let mut verifier = Bench::new(0, 4096);
    assert_eq!(verifier.start(10), Ok(()));
    assert!(verifier.deliver(1, 10, true).is_ok());
    verifier.decompressed(1, 10, Ok(()));
    verifier.written(10);
    verifier.calls();
    verifier.verified(Some(DalsError::VerificationFailed));
    verifier.verified(Some(DalsError::VerificationFailed));
    verifier.authorized(Err(DalsError::AuthorizationFailed));
    assert_eq!(verifier.calls(), vec![Call::ReturnError(DalsError::VerificationFailed)]);

    let mut authorizer = Bench::new(0, 4096);
    assert_eq!(authorizer.start(10), Ok(()));
    assert!(authorizer.deliver(1, 10, true).is_ok());
    authorizer.decompressed(1, 10, Ok(()));
    authorizer.written(10);
    authorizer.verified(None);
    authorizer.calls();
    authorizer.authorized(Err(DalsError::AuthorizationFailed));
    authorizer.authorized(Err(DalsError::AuthorizationFailed));
    assert_eq!(authorizer.calls(), vec![Call::ReturnError(DalsError::AuthorizationFailed)]);

    for bench in [&mut storage, &mut verifier, &mut authorizer] {
        assert_eq!(bench.loader.state(), State::Idle);
        assert_eq!(bench.start(10), Ok(()));
        assert!(bench.deliver(7, 10, true).is_ok());
    }
}

#[test]
fn loader_rejects_chunk_without_session() {
    let mut bench = Bench::new(0, 4096);
    let rejected = bench.deliver(1, 8, false);
    assert_eq!(rejected, Err(buffer(1, 8)));
    assert_eq!(bench.calls(), vec![]);
    assert_eq!(bench.loader.state(), State::Idle);
}

#[test]
fn loader_rejects_chunk_while_busy() {
    let mut bench = Bench::new(0, 4096);
    assert_eq!(bench.start(100), Ok(()));
    assert!(bench.deliver(1, 50, false).is_ok());
    bench.calls();
    let session = bench.loader.session();

    assert_eq!(bench.deliver(2, 50, true), Err(buffer(2, 50)));
    assert_eq!(bench.calls(), vec![]);
    assert_eq!(bench.loader.session(), session);

    bench.decompressed(1, 50, Ok(()));
    assert_eq!(bench.deliver(3, 50, true), Err(buffer(3, 50)));
    bench.written(50);
    assert!(bench.deliver(4, 50, true).is_ok());
}

#[test]
fn loader_start_loading_while_active_is_session_busy() {
    let mut bench = Bench::new(0, 4096);
    assert_eq!(bench.start(100), Ok(()));
    assert!(bench.deliver(1, 50, false).is_ok());
    bench.decompressed(1, 50, Ok(()));
    bench.calls();
    let session = bench.loader.session();

    assert_eq!(bench.start(10), Err(DalsError::SessionBusy));
    assert_eq!(bench.start(5000), Err(DalsError::SessionBusy));
    assert_eq!(bench.loader.session(), session);
    assert_eq!(bench.loader.state(), State::Writing);
    assert_eq!(bench.calls(), vec![]);

    // The session goes on as if nothing had been asked.
    bench.written(50);
    assert!(bench.deliver(2, 50, true).is_ok());
}

#[test]
fn loader_start_loading_without_space() {
    let mut bench = Bench::new(0, 4096);
    assert_eq!(bench.start(4097), Err(DalsError::InsufficientSpace));
    assert!(bench.loader.session().is_none());
    assert_eq!(bench.calls(), vec![]);
    assert_eq!(bench.start(4096), Ok(()));
}

#[test]
fn loader_action_complete_takes_any_event() {
    let mut bench = Bench::new(0x100, 4096);
    assert_eq!(bench.start(10), Ok(()));

    bench.shared.borrow_mut().owners.insert(1, Owner::Loader);
    bench.loader.action_complete(Event::Chunk { buffer: buffer(1, 10), length: 10, completed: true });
    assert_eq!(bench.calls(), vec![Call::DecompressBuffer { id: 1, length: 10 }]);

    // A second chunk at this point is a stray event: it goes back to the data source.
    bench.shared.borrow_mut().owners.insert(2, Owner::Loader);
    bench.loader.action_complete(Event::Chunk { buffer: buffer(2, 10), length: 10, completed: true });
    assert_eq!(bench.calls(), vec![Call::ReturnBuffer { id: 2 }]);
    assert_eq!(bench.loader.state(), State::Decompressing);

    let original = bench.shared.borrow_mut().release(1, Owner::Decompressor);
    let decoded = bench.shared.borrow_mut().release(DECODED, Owner::Decompressor);
    bench.loader.action_complete(Event::Decompressed {
        decompressed_buffer: decoded,
        decompressed_length: 10,
        original_buffer: original,
        status: Ok(()),
    });
    assert_eq!(
        bench.calls(),
        vec![Call::ReturnBuffer { id: 1 }, Call::Write { id: DECODED, offset: 0x100, length: 10 }]
    );
    bench.settle();
}

#[test]
fn loader_buffers_have_one_owner_at_every_transfer() {
    let mut bench = Bench::new(0, 4096);
    assert_eq!(bench.start(30), Ok(()));
    for (i, completed) in [(0u32, false), (1, false), (2, true)] {
        assert!(bench.deliver(i, 10, completed).is_ok());
        assert_eq!(bench.shared.borrow().held_by(Owner::Decompressor), vec![i, DECODED]);
        bench.decompressed(i, 10, Ok(()));
        assert_eq!(bench.shared.borrow().held_by(Owner::Storage), vec![DECODED]);
        assert_eq!(bench.shared.borrow().held_by(Owner::DataSource), (0..=i).collect::<Vec<u32>>());
        bench.written(10);
        assert_eq!(bench.shared.borrow().held_by(Owner::Decompressor), vec![DECODED]);
    }
    bench.verified(None);
    bench.authorized(Ok(()));
    let h = bench.shared.borrow();
    assert_eq!(h.held_by(Owner::DataSource), vec![0, 1, 2]);
    assert_eq!(h.held_by(Owner::Decompressor), vec![DECODED]);
    assert_eq!(h.held_by(Owner::Storage), Vec::<u32>::new());
    assert_eq!(h.held_by(Owner::Loader), Vec::<u32>::new());
}
