//! The device builder: the adapters that a device can be built on, and the
//! choice among them.
use crate::batch::key_bits;
use crate::device::{Device, DeviceView};
use crate::error::{Error, RenResult};
use crate::keys::{AdapterKey, KeyBits};
use crate::registry::{Registry, MAX_ENTRIES};
use vstd::prelude::*;

verus! {

/// The number of bytes in the identifier of a pipeline cache.
pub const UUID_SIZE: usize = 16;

/// A graphics adapter.
pub struct Adapter {
    name: String,
    pipeline_cache_uuid: [u8; UUID_SIZE],
}

impl Adapter {
    /// The name of the adapter.
    pub closed spec fn name(&self) -> Seq<char> {
        self.name@
    }

    /// The identifier of the adapter's pipeline cache, by which the engine
    /// finds the adapter.
    pub closed spec fn uuid(&self) -> [u8; UUID_SIZE] {
        self.pipeline_cache_uuid
    }

    /// The adapter with the given name and pipeline cache identifier.
    pub fn new(name: String, pipeline_cache_uuid: [u8; UUID_SIZE]) -> (adapter: Self)
        ensures
            adapter.name() == name@,
            adapter.uuid() == pipeline_cache_uuid,
    {
        Adapter { name, pipeline_cache_uuid }
    }

    /// The name of the adapter.
    pub fn get_name(&self) -> (name: &str)
        ensures
            name@ == self.name(),
    {
        self.name.as_str()
    }

    /// The identifier of the adapter's pipeline cache.
    pub fn get_pipeline_cache_uuid(&self) -> (uuid: [u8; UUID_SIZE])
        ensures
            uuid == self.uuid(),
    {
        self.pipeline_cache_uuid
    }
}

/// What the engine is handed to create a device: the pipeline cache
/// identifier of the adapter to build on.
#[derive(Debug, Clone, Copy, PartialEq, Eq, Hash)]
pub struct RenDeviceDesc {
    pub pipeline_cache_uuid: [u8; UUID_SIZE],
}

/// What a device builder holds: the adapters by their keys, the keys in the
/// order in which the adapters were found, and the choice, if one was made.
pub struct DeviceBuilderView {
    pub adapters: Map<u64, Adapter>,
    pub keys: Seq<AdapterKey>,
    pub adapter: Option<AdapterKey>,
}

impl DeviceBuilderView {
    /// The adapter to build on: the one that was chosen, or the first that was
    /// found where none was. `InvalidKey` where the choice names no adapter.
    pub open spec fn chosen(self) -> Result<AdapterKey, Error> {
        match self.adapter {
            Some(key) => if self.adapters.contains_key(key.bits()) {
                Ok(key)
            } else {
                Err(Error::InvalidKey)
            },
            None => Ok(self.keys[0]),
        }
    }
}

/// A device builder.
pub struct DeviceBuilder {
    adapters: Registry<Adapter>,
    order: Vec<AdapterKey>,
    adapter: Option<AdapterKey>,
}

impl View for DeviceBuilder {
    type V = DeviceBuilderView;

    closed spec fn view(&self) -> DeviceBuilderView {
        DeviceBuilderView { adapters: self.adapters@, keys: self.order@, adapter: self.adapter }
    }
}

impl DeviceBuilder {
    /// The registry is in order, and the keys list each adapter once.
    pub closed spec fn wf(&self) -> bool {
        &&& self.adapters.wf()
        &&& self.order@.len() > 0
        &&& key_bits(self.order@).no_duplicates()
        &&& key_bits(self.order@).to_set() == self.adapters@.dom()
    }

    /// A builder holds at least one adapter, and its keys list each adapter
    /// once.
    pub proof fn lemma_wf(&self)
        requires
            self.wf(),
        ensures
            self@.keys.len() > 0,
            key_bits(self@.keys).no_duplicates(),
            key_bits(self@.keys).to_set() == self@.adapters.dom(),
    {
    }

    /// The keys of the adapters, in the order in which they were found.
    pub fn adapters(&self) -> (keys: Vec<AdapterKey>)
        ensures
            keys@ == self@.keys,
    {
        self.order.clone()
    }

    /// The adapter under a key, if the key is alive.
    pub fn get_adapter(&self, key: AdapterKey) -> (r: Option<&Adapter>)
        requires
            self.wf(),
        ensures
            match r {
                Some(a) => self@.adapters.contains_key(key.bits()) && *a
                    == self@.adapters[key.bits()],
                None => !self@.adapters.contains_key(key.bits()),
            },
    {
        self.adapters.get(key.as_ffi())
    }

    /// Chooses the adapter to build on; `None` leaves the choice to the
    /// builder.
    pub fn select_adapter(&mut self, adapter: Option<AdapterKey>) -> (builder: &mut Self)
        requires
            old(self).wf(),
        ensures
            builder.wf(),
            builder@ == (DeviceBuilderView { adapter, ..old(self)@ }),
            *final(self) == *final(builder),
    {
        self.adapter = adapter;
        self
    }

    /// The key of the adapter to build on.
    pub fn chosen_adapter(&self) -> (r: Result<AdapterKey, Error>)
        requires
            self.wf(),
        ensures
            r == self@.chosen(),
    {
        match self.adapter {
            Some(key) => if self.adapters.contains_key(key.as_ffi()) {
                Ok(key)
            } else {
                Err(Error::InvalidKey)
            },
            None => Ok(self.order[0]),
        }
    }

    /// What is to be handed to the engine to create the device: the pipeline
    /// cache identifier of the adapter to build on.
    pub fn plan_build(&self) -> (r: Result<RenDeviceDesc, Error>)
        requires
            self.wf(),
        ensures
            r == (match self@.chosen() {
                Ok(key) => Ok::<RenDeviceDesc, Error>(
                    RenDeviceDesc { pipeline_cache_uuid: self@.adapters[key.bits()].uuid() },
                ),
                Err(e) => Err(e),
            }),
    {
        let key = self.chosen_adapter()?;
        proof {
            if self.adapter is None {
                assert(key_bits(self.order@)[0] == self.order@[0].bits());
                assert(key_bits(self.order@).to_set().contains(key.bits()));
            }
        }
        match self.adapters.get(key.as_ffi()) {
            Some(adapter) => Ok(
                RenDeviceDesc { pipeline_cache_uuid: adapter.get_pipeline_cache_uuid() },
            ),
            None => Err(Error::InvalidKey),
        }
    }

    /// Takes the engine's answer to the creation of the device, `handle`
    /// being the native handle that it gave. Fails with `InvalidKey` where the
    /// choice names no adapter, else with the error that the engine reported.
    pub fn build(self, result: RenResult, handle: u64) -> (r: Result<Device, Error>)
        requires
            self.wf(),
        ensures
            match r {
                Ok(device) => self@.chosen() is Ok && Error::of_code(result) is None
                    && device.wf() && device@ == DeviceView::empty(handle),
                Err(e) => match self@.chosen() {
                    Ok(_) => Error::of_code(result) == Some(e),
                    Err(refusal) => e == refusal,
                },
            },
    {
        let _ = self.chosen_adapter()?;
        Device::new(result, handle)
    }
}

impl Device {
    /// A builder for a device on one of the given adapters, which are those
    /// that were found on the machine, in the order in which they were found.
    /// Fails with `System` exactly when there is none.
    pub fn builder(adapters: Vec<Adapter>) -> (r: Result<DeviceBuilder, Error>)
        requires
            adapters@.len() <= MAX_ENTRIES,
        ensures
            match r {
                Ok(builder) => builder.wf() && builder@.adapter is None && builder@.keys.len()
                    == adapters@.len() && forall|i: int|
                    0 <= i < adapters@.len() ==> builder@.adapters.contains_key(
                        (#[trigger] builder@.keys[i]).bits(),
                    ) && builder@.adapters[builder@.keys[i].bits()] == adapters@[i],
                Err(e) => e == Error::System && adapters@.len() == 0,
            },
    {
        if adapters.len() == 0 {
            return Err(Error::System);
        }
        let ghost all = adapters@;
        let mut rest = adapters;
        let mut registry: Registry<Adapter> = Registry::new();
        let mut order: Vec<AdapterKey> = Vec::new();
        while rest.len() > 0
            invariant
                registry.wf(),
                all.len() <= MAX_ENTRIES,
                order@.len() + rest@.len() == all.len(),
                rest@ == all.skip(order@.len() as int),
                registry@.len() == order@.len(),
                key_bits(order@).no_duplicates(),
                key_bits(order@).to_set() == registry@.dom(),
                forall|j: int|
                    0 <= j < order@.len() ==> registry@.contains_key((#[trigger] order@[j]).bits())
                        && registry@[order@[j].bits()] == all[j],
            decreases rest@.len(),
        {
            let ghost prev = registry@;
            let ghost prev_bits = key_bits(order@);
            proof {
                registry.lemma_wf();
            }
            let adapter = rest.remove(0);
            let bits = registry.insert(adapter);
            order.push(AdapterKey::from_ffi(bits));
            proof {
                let now_bits = key_bits(order@);
                assert(now_bits =~= prev_bits.push(bits));
                assert(!prev_bits.contains(bits)) by {
                    if prev_bits.contains(bits) {
                        assert(prev_bits.to_set().contains(bits));
                    }
                }
                assert forall|b: u64| now_bits.contains(b) <==> prev_bits.contains(b) || b
                    == bits by {
                    if prev_bits.contains(b) {
                        let j = choose|j: int| 0 <= j < prev_bits.len() && prev_bits[j] == b;
                        assert(now_bits[j] == b);
                    }
                    if b == bits {
                        assert(now_bits[prev_bits.len() as int] == b);
                    }
                }
                assert(now_bits.to_set() =~= prev_bits.to_set().insert(bits));
                assert(registry@.dom() =~= prev.dom().insert(bits));
                assert(rest@ =~= all.skip(order@.len() as int));
                assert forall|j: int| 0 <= j < order@.len() implies registry@.contains_key(
                    (#[trigger] order@[j]).bits(),
                ) && registry@[order@[j].bits()] == all[j] by {
                    if j < order@.len() - 1 {
                        assert(prev_bits[j] == order@[j].bits());
                        assert(prev_bits.to_set().contains(prev_bits[j]));
                    }
                }
            }
        }
        Ok(DeviceBuilder { adapters: registry, order, adapter: None })
    }
}

} // verus!
