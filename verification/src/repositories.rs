//! Repositories shared by the worker threads: row queues, and the source
//! readers and sink writers of the pipeline with the rows they exchange
//! with the outside.
use std::sync::Arc;

use vstd::prelude::*;
use vstd::rwlock::{RwLock, RwLockPredicate};

use crate::error::SpringError;
use crate::option::{
    InMemoryQueueOptions,
    NetServerOptions,
    NetServerOptionsView,
    Options,
    OptionErrorView,
    option_error_of,
    spec_in_memory_queue_options,
    spec_net_server_options,
};
use crate::pipeline::{SinkWriterModel, SinkWriterType, SourceReaderModel, SourceReaderType};
use crate::row::{Row, RowRepository};
use crate::task_id::TaskId;

verus! {

/// Settings of the source readers.
#[derive(Debug, Clone, Copy, PartialEq, Eq, Structural)]
pub struct SpringSourceReaderConfig {
    pub net_connect_timeout_msec: u32,
    pub net_read_timeout_msec: u32,
}

/// Settings of the sink writers.
#[derive(Debug, Clone, Copy, PartialEq, Eq, Structural)]
pub struct SpringSinkWriterConfig {
    pub net_connect_timeout_msec: u32,
    pub net_write_timeout_msec: u32,
}

/// A source reader, with what it needs to start receiving rows.
#[derive(Debug, PartialEq, Eq)]
pub enum SourceReaderSetup {
    NetClient { options: NetServerOptions, config: SpringSourceReaderConfig },
    NetServer { options: NetServerOptions, config: SpringSourceReaderConfig },
}

/// The view of a source reader setup: its kind and its options.
pub open spec fn source_setup_view(s: SourceReaderSetup) -> (SourceReaderType, NetServerOptionsView) {
    match s {
        SourceReaderSetup::NetClient { options, .. } => (SourceReaderType::NetClient, options@),
        SourceReaderSetup::NetServer { options, .. } => (SourceReaderType::NetServer, options@),
    }
}

/// The setup of a source reader of the given type: its network options, or
/// the first option error.
pub open spec fn spec_source_setup(ty: SourceReaderType, options: Options) -> Result<
    (SourceReaderType, NetServerOptionsView),
    OptionErrorView,
> {
    match spec_net_server_options(options) {
        Ok(o) => Ok((ty, o)),
        Err(e) => Err(e),
    }
}

/// A sink writer, with what it needs to start writing rows.
#[derive(Debug, PartialEq, Eq)]
pub enum SinkWriterSetup {
    InMemoryQueue { queue: InMemoryQueueOptions },
    Net { options: NetServerOptions, config: SpringSinkWriterConfig },
}

/// The setup of a sink writer of the given type: the queue name of an
/// in-memory queue, the network options of a network writer; or the first
/// option error.
pub open spec fn spec_sink_setup(ty: SinkWriterType, options: Options) -> Result<(), OptionErrorView> {
    match ty {
        SinkWriterType::InMemoryQueue => match spec_in_memory_queue_options(options) {
            Ok(_) => Ok(()),
            Err(e) => Err(e),
        },
        SinkWriterType::Net => match spec_net_server_options(options) {
            Ok(_) => Ok(()),
            Err(e) => Err(e),
        },
    }
}

/// `s` is the setup that a source reader of type `ty` with `options` gets
/// under `config`.
pub open spec fn is_source_setup_of(
    s: SourceReaderSetup,
    ty: SourceReaderType,
    options: Options,
    config: SpringSourceReaderConfig,
) -> bool {
    &&& spec_source_setup(ty, options) == Ok::<(SourceReaderType, NetServerOptionsView), OptionErrorView>(
        source_setup_view(s),
    )
    &&& match s {
        SourceReaderSetup::NetClient { config: c, .. } => c == config,
        SourceReaderSetup::NetServer { config: c, .. } => c == config,
    }
}

/// `s` is the setup that a sink writer of type `ty` with `options` gets
/// under `config`.
pub open spec fn is_sink_setup_of(
    s: SinkWriterSetup,
    ty: SinkWriterType,
    options: Options,
    config: SpringSinkWriterConfig,
) -> bool {
    &&& spec_sink_setup(ty, options) is Ok
    &&& match s {
        SinkWriterSetup::InMemoryQueue { queue: o } => ty == SinkWriterType::InMemoryQueue
            && spec_in_memory_queue_options(options) == Ok::<Seq<char>, OptionErrorView>(
            o.queue_name@,
        ),
        SinkWriterSetup::Net { options: o, config: c } => ty == SinkWriterType::Net && c == config
            && spec_net_server_options(options) == Ok::<NetServerOptionsView, OptionErrorView>(o@),
    }
}

/// Makes the setups of source readers.
pub struct SourceReaderFactory;

impl SourceReaderFactory {
    /// Reads the options of a source reader of the given type.
    pub fn source(
        source_reader_type: &SourceReaderType,
        options: &Options,
        config: &SpringSourceReaderConfig,
    ) -> (r: Result<SourceReaderSetup, SpringError>)
        ensures
            match r {
                Ok(s) => is_source_setup_of(s, *source_reader_type, *options, *config),
                Err(e) => e is InvalidOption && spec_source_setup(*source_reader_type, *options)
                    == Err::<(SourceReaderType, NetServerOptionsView), OptionErrorView>(
                    option_error_of(e),
                ),
            },
    {
        match source_reader_type {
            SourceReaderType::NetClient => Ok(
                SourceReaderSetup::NetClient {
                    options: NetServerOptions::try_from(options)?,
                    config: *config,
                },
            ),
            SourceReaderType::NetServer => Ok(
                SourceReaderSetup::NetServer {
                    options: NetServerOptions::try_from(options)?,
                    config: *config,
                },
            ),
        }
    }
}

/// Makes the setups of sink writers.
pub struct SinkWriterFactory;

impl SinkWriterFactory {
    /// Reads the options of a sink writer of the given type.
    pub fn sink(
        sink_writer_type: &SinkWriterType,
        options: &Options,
        config: &SpringSinkWriterConfig,
    ) -> (r: Result<SinkWriterSetup, SpringError>)
        ensures
            match r {
                Ok(s) => is_sink_setup_of(s, *sink_writer_type, *options, *config),
                Err(e) => e is InvalidOption && spec_sink_setup(*sink_writer_type, *options)
                    == Err::<(), OptionErrorView>(option_error_of(e)),
            },
    {
        match sink_writer_type {
            SinkWriterType::InMemoryQueue => Ok(
                SinkWriterSetup::InMemoryQueue { queue: InMemoryQueueOptions::try_from(options)? },
            ),
            SinkWriterType::Net => Ok(
                SinkWriterSetup::Net { options: NetServerOptions::try_from(options)?, config: *config },
            ),
        }
    }
}

/// Named entries, at most one per name.
pub struct Registry<T> {
    entries: Vec<(String, T)>,
}

impl<T> Registry<T> {
    /// The names of the entries, in order of registration.
    pub closed spec fn names(&self) -> Seq<Seq<char>> {
        self.entries@.map_values(|e: (String, T)| e.0@)
    }

    /// The entry of each name.
    pub closed spec fn entry(&self, i: int) -> T {
        self.entries@[i].1
    }

    /// No name is registered twice.
    pub open spec fn wf(&self) -> bool {
        forall|i: int, j: int|
            0 <= i < self.names().len() && 0 <= j < self.names().len() && i != j ==> self.names()[i]
                != self.names()[j]
    }

    pub fn new() -> (r: Registry<T>)
        ensures
            r.wf(),
            r.names().len() == 0,
    {
        let r = Registry { entries: Vec::new() };
        assert(r.names() =~= Seq::<Seq<char>>::empty());
        r
    }

    /// Whether `name` is registered.
    pub fn contains(&self, name: &String) -> (r: bool)
        ensures
            r == self.names().contains(name@),
    {
        let n = self.entries.len();
        let mut i: usize = 0;
        while i < n
            invariant
                n == self.entries@.len(),
                i <= n,
                forall|j: int| 0 <= j < i ==> self.names()[j] != name@,
            decreases n - i,
        {
            if self.entries[i].0 == *name {
                assert(self.names()[i as int] == name@);
                return true;
            }
            i = i + 1;
        }
        false
    }

    /// Registers `item` under a new name.
    pub fn insert(&mut self, name: String, item: T)
        requires
            old(self).wf(),
            !old(self).names().contains(name@),
        ensures
            final(self).wf(),
            final(self).names() == old(self).names().push(name@),
            final(self).entry(old(self).names().len() as int) == item,
            forall|i: int|
                0 <= i < old(self).names().len() ==> final(self).entry(i) == old(self).entry(i),
    {
        let ghost old_names = self.names();
        let ghost nm = name@;
        self.entries.push((name, item));
        assert(self.names() =~= old_names.push(nm));
        assert forall|i: int, j: int|
            0 <= i < self.names().len() && 0 <= j < self.names().len() && i != j implies self.names()[i]
            != self.names()[j] by {
            if i == old_names.len() {
                assert(old_names[j] != nm);
            } else if j == old_names.len() {
                assert(old_names[i] != nm);
            }
        }
    }
}

/// Registries of distinct names.
pub struct DistinctNames;

impl<T> RwLockPredicate<Registry<T>> for DistinctNames {
    open spec fn inv(self, v: Registry<T>) -> bool {
        v.wf()
    }
}

/// The source readers of the pipeline and the rows they received.
pub struct SourceReaderRepository {
    config: SpringSourceReaderConfig,
    readers: RwLock<Registry<SourceReaderSetup>, DistinctNames>,
    received: RowRepository,
}

impl SourceReaderRepository {
    pub closed spec fn wf(&self) -> bool {
        &&& self.readers.pred() == DistinctNames
        &&& self.received.wf()
    }

    /// The configuration that readings of options use.
    pub closed spec fn spec_config(&self) -> SpringSourceReaderConfig {
        self.config
    }

    pub fn new(config: SpringSourceReaderConfig) -> (r: SourceReaderRepository)
        ensures
            r.wf(),
            r.spec_config() == config,
    {
        SourceReaderRepository {
            config,
            readers: RwLock::new(Registry::new(), Ghost(DistinctNames)),
            received: RowRepository::new(),
        }
    }

    /// Registers a source reader unless one of that name already is; fails
    /// with its option error when its options are invalid.
    pub fn register(&self, source_reader: &SourceReaderModel) -> (r: Result<(), SpringError>)
        requires
            self.wf(),
        ensures
            r matches Err(e) ==> e is InvalidOption && spec_source_setup(
                source_reader.source_reader_type,
                source_reader.options,
            ) == Err::<(SourceReaderType, NetServerOptionsView), OptionErrorView>(
                option_error_of(e),
            ),
            spec_source_setup(source_reader.source_reader_type, source_reader.options) is Ok
                ==> r is Ok,
    {
        let (mut readers, handle) = self.readers.acquire_write();
        let r = Self::register_in(&mut readers, source_reader, &self.config);
        handle.release_write(readers);
        r
    }

    /// Registers `source_reader` in `readers`: a name already registered is
    /// left as it is; a new name gets the setup that its options give
    /// under `config`, after the others; when the options are invalid,
    /// `readers` stays as it was and the option error comes back.
    pub fn register_in(
        readers: &mut Registry<SourceReaderSetup>,
        source_reader: &SourceReaderModel,
        config: &SpringSourceReaderConfig,
    ) -> (r: Result<(), SpringError>)
        requires
            old(readers).wf(),
        ensures
            final(readers).wf(),
            old(readers).names().contains(source_reader.name@) ==> r is Ok && *final(readers)
                == *old(readers),
            !old(readers).names().contains(source_reader.name@) ==> match spec_source_setup(
                source_reader.source_reader_type,
                source_reader.options,
            ) {
                Ok(_) => {
                    &&& r is Ok
                    &&& final(readers).names() == old(readers).names().push(source_reader.name@)
                    &&& is_source_setup_of(
                        final(readers).entry(old(readers).names().len() as int),
                        source_reader.source_reader_type,
                        source_reader.options,
                        *config,
                    )
                    &&& forall|i: int|
                        0 <= i < old(readers).names().len() ==> final(readers).entry(i) == old(
                            readers,
                        ).entry(i)
                },
                Err(e) => r matches Err(err) && err is InvalidOption && option_error_of(err) == e
                    && *final(readers) == *old(readers),
            },
    {
        if readers.contains(&source_reader.name) {
            return Ok(());
        }
        match SourceReaderFactory::source(
            &source_reader.source_reader_type,
            &source_reader.options,
            config,
        ) {
            Ok(setup) => {
                readers.insert(source_reader.name.clone(), setup);
                Ok(())
            },
            Err(e) => Err(e),
        }
    }

    /// Hands a row received by the reader of source task `task` to it.
    pub fn feed(&self, task: &TaskId, row: Arc<Row>)
        requires
            self.wf(),
    {
        let tasks = vec![task.clone()];
        self.received.emit(&row, tasks.as_slice());
    }

    /// The oldest row received for source task `task`, if any.
    pub fn next_row(&self, task: &TaskId) -> (r: Option<Arc<Row>>)
        requires
            self.wf(),
    {
        self.received.collect_next(task)
    }
}

/// The sink writers of the pipeline and the rows waiting to be written.
pub struct SinkWriterRepository {
    config: SpringSinkWriterConfig,
    writers: RwLock<Registry<SinkWriterSetup>, DistinctNames>,
    outgoing: RowRepository,
}

impl SinkWriterRepository {
    pub closed spec fn wf(&self) -> bool {
        &&& self.writers.pred() == DistinctNames
        &&& self.outgoing.wf()
    }

    /// The configuration that readings of options use.
    pub closed spec fn spec_config(&self) -> SpringSinkWriterConfig {
        self.config
    }

    pub fn new(config: SpringSinkWriterConfig) -> (r: SinkWriterRepository)
        ensures
            r.wf(),
            r.spec_config() == config,
    {
        SinkWriterRepository {
            config,
            writers: RwLock::new(Registry::new(), Ghost(DistinctNames)),
            outgoing: RowRepository::new(),
        }
    }

    /// Registers a sink writer unless one of that name already is; fails
    /// with its option error when its options are invalid.
    pub fn register(&self, sink_writer: &SinkWriterModel) -> (r: Result<(), SpringError>)
        requires
            self.wf(),
        ensures
            r matches Err(e) ==> e is InvalidOption && spec_sink_setup(
                sink_writer.sink_writer_type,
                sink_writer.options,
            ) == Err::<(), OptionErrorView>(option_error_of(e)),
            spec_sink_setup(sink_writer.sink_writer_type, sink_writer.options) is Ok ==> r is Ok,
    {
        let (mut writers, handle) = self.writers.acquire_write();
        let r = Self::register_in(&mut writers, sink_writer, &self.config);
        handle.release_write(writers);
        r
    }

    /// Registers `sink_writer` in `writers`: a name already registered is
    /// left as it is; a new name gets the setup that its options give under
    /// `config`, after the others; when the options are invalid, `writers`
    /// stays as it was and the option error comes back.
    pub fn register_in(
        writers: &mut Registry<SinkWriterSetup>,
        sink_writer: &SinkWriterModel,
        config: &SpringSinkWriterConfig,
    ) -> (r: Result<(), SpringError>)
        requires
            old(writers).wf(),
        ensures
            final(writers).wf(),
            old(writers).names().contains(sink_writer.name@) ==> r is Ok && *final(writers)
                == *old(writers),
            !old(writers).names().contains(sink_writer.name@) ==> match spec_sink_setup(
                sink_writer.sink_writer_type,
                sink_writer.options,
            ) {
                Ok(_) => {
                    &&& r is Ok
                    &&& final(writers).names() == old(writers).names().push(sink_writer.name@)
                    &&& is_sink_setup_of(
                        final(writers).entry(old(writers).names().len() as int),
                        sink_writer.sink_writer_type,
                        sink_writer.options,
                        *config,
                    )
                    &&& forall|i: int|
                        0 <= i < old(writers).names().len() ==> final(writers).entry(i) == old(
                            writers,
                        ).entry(i)
                },
                Err(e) => r matches Err(err) && err is InvalidOption && option_error_of(err) == e
                    && *final(writers) == *old(writers),
            },
    {
        if writers.contains(&sink_writer.name) {
            return Ok(());
        }
        match SinkWriterFactory::sink(&sink_writer.sink_writer_type, &sink_writer.options, config) {
            Ok(setup) => {
                writers.insert(sink_writer.name.clone(), setup);
                Ok(())
            },
            Err(e) => Err(e),
        }
    }

    /// Hands a row to the writer of sink task `task`.
    pub fn deliver(&self, task: &TaskId, row: Arc<Row>)
        requires
            self.wf(),
    {
        let tasks = vec![task.clone()];
        self.outgoing.emit(&row, tasks.as_slice());
    }

    /// The oldest row waiting to be written by sink task `task`, if any.
    pub fn next_output(&self, task: &TaskId) -> (r: Option<Arc<Row>>)
        requires
            self.wf(),
    {
        self.outgoing.collect_next(task)
    }
}

/// The repositories that the worker threads share.
pub struct Repositories {
    pub row_repository: RowRepository,
    pub source_reader_repository: SourceReaderRepository,
    pub sink_writer_repository: SinkWriterRepository,
}

impl Repositories {
    pub open spec fn wf(&self) -> bool {
        &&& self.row_repository.wf()
        &&& self.source_reader_repository.wf()
        &&& self.sink_writer_repository.wf()
    }

    pub fn new(source_config: SpringSourceReaderConfig, sink_config: SpringSinkWriterConfig) -> (r:
        Repositories)
        ensures
            r.wf(),
            r.source_reader_repository.spec_config() == source_config,
            r.sink_writer_repository.spec_config() == sink_config,
    {
        Repositories {
            row_repository: RowRepository::new(),
            source_reader_repository: SourceReaderRepository::new(source_config),
            sink_writer_repository: SinkWriterRepository::new(sink_config),
        }
    }
}

} // verus!
