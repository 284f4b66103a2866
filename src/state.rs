use vstd::prelude::*;

verus! {

/// The shared cache of a wrapped producer.
///
/// While `Running`, the producer `stream` is still alive and `values` holds
/// every item it has yielded so far, in order. Once the producer reports its
/// end, the state becomes `Finished` for good, keeping the items and dropping
/// the producer.
#[derive(Debug)]
pub enum InnerState<T, S> {
    Running { values: Vec<T>, stream: S },
    Finished { values: Vec<T> },
}

/// What the cache can tell a reader about one index.
#[derive(Debug)]
pub enum Lookup<T> {
    /// The item at that index, cloned out of the cache.
    Item(T),
    /// The producer is finished and the index lies past its last item.
    End,
    /// The index is not cached yet: the producer must be polled once and the
    /// outcome handed to [`InnerState::record`].
    Upstream,
}

/// The abstract content of an [`InnerState`]: the cached items, and whether
/// the producer is still alive.
pub ghost struct CacheView<T> {
    pub values: Seq<T>,
    pub running: bool,
}

impl<T> CacheView<T> {
    /// The producer must be polled before `idx` can be answered.
    pub open spec fn needs_upstream(self, idx: int) -> bool {
        self.running && idx >= self.values.len()
    }

    /// The state after the outcome `polled` of one poll of the producer:
    /// a new item is appended, the end turns the state finished with the
    /// cache kept verbatim. A finished state stays as it is.
    pub open spec fn after_record(self, polled: Option<T>) -> Self {
        if !self.running {
            self
        } else {
            match polled {
                Some(v) => CacheView { values: self.values.push(v), running: true },
                None => CacheView { values: self.values, running: false },
            }
        }
    }
}

impl<T, S> View for InnerState<T, S> {
    type V = CacheView<T>;

    open spec fn view(&self) -> CacheView<T> {
        match self {
            InnerState::Running { values, .. } => CacheView { values: values@, running: true },
            InnerState::Finished { values } => CacheView { values: values@, running: false },
        }
    }
}

impl<T, S> InnerState<T, S> {
    /// The producer, while the state is running.
    pub open spec fn producer(&self) -> Option<S> {
        match self {
            InnerState::Running { stream, .. } => Some(*stream),
            InnerState::Finished { .. } => None,
        }
    }

    /// A fresh state: running, with nothing cached.
    pub fn new(stream: S) -> (r: Self)
        ensures
            r@.running,
            r@.values == Seq::<T>::empty(),
            r.producer() == Some(stream),
    {
        InnerState::Running { values: Vec::new(), stream }
    }

    /// Number of cached items.
    pub fn len(&self) -> (r: usize)
        ensures
            r == self@.values.len(),
    {
        match self {
            InnerState::Running { values, .. } => values.len(),
            InnerState::Finished { values } => values.len(),
        }
    }

    /// Whether the producer is still alive.
    pub fn running(&self) -> (r: bool)
        ensures
            r == self@.running,
    {
        match self {
            InnerState::Running { .. } => true,
            InnerState::Finished { .. } => false,
        }
    }

    /// Answers a reader at `idx` from the cache alone, never touching the
    /// producer: the cached item if there is one, the end if the producer is
    /// finished, and otherwise a request to poll the producer.
    pub fn lookup(&self, idx: usize) -> (r: Lookup<T>)
        where
            T: Clone,
        ensures
            r is Item <==> idx < self@.values.len(),
            r is End <==> !self@.running && idx >= self@.values.len(),
            r is Upstream <==> self@.needs_upstream(idx as int),
            r matches Lookup::Item(v) ==> cloned(self@.values[idx as int], v),
    {
        let values = match self {
            InnerState::Running { values, .. } => values,
            InnerState::Finished { values } => values,
        };
        if idx < values.len() {
            Lookup::Item(values[idx].clone())
        } else if self.running() {
            Lookup::Upstream
        } else {
            Lookup::End
        }
    }

    /// Takes in the outcome of one poll of the producer: `Some(v)` appends
    /// `v` to the cache, `None` moves the cache into `Finished` and drops the
    /// producer. A finished state ignores it.
    pub fn record(&mut self, polled: Option<T>)
        ensures
            final(self)@ == old(self)@.after_record(polled),
            polled is Some ==> final(self).producer() == old(self).producer(),
    {
        match self {
            InnerState::Running { values, .. } => match polled {
                Some(v) => {
                    values.push(v);
                },
                None => {
                    let mut kept: Vec<T> = Vec::new();
                    core::mem::swap(values, &mut kept);
                    *self = InnerState::Finished { values: kept };
                },
            },
            InnerState::Finished { .. } => {},
        }
    }
}

} // verus!
