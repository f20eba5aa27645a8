//! A compute platform, its attributes, and the selection of its devices
//! by type.
//!
//! A `Platform` holds its native identifier, the raw attribute buffers
//! fetched for it, and the devices the discovery layer enumerated under
//! it.  `devices` selects among the held devices by the type mask, as the
//! native interface documents: a concrete mask selects every device whose
//! type shares a bit with it, the all-devices mask selects everything but
//! custom devices, and an empty selection is reported as a status code.

use vstd::prelude::*;

use crate::codec::{is_text, le64, text_list, text_of, text_pieces, text_string, SPACE};
use crate::device::{same_device, Device};
use crate::info::{
    CL_DEVICE_NOT_FOUND, CL_DEVICE_TYPE, CL_DEVICE_TYPE_ALL, CL_DEVICE_TYPE_CUSTOM,
    CL_INVALID_DEVICE_TYPE, CL_INVALID_VALUE, CL_PLATFORM_EXTENSIONS, CL_PLATFORM_NAME,
    CL_PLATFORM_PROFILE, CL_PLATFORM_VENDOR, CL_PLATFORM_VERSION,
};
use crate::store::{copy_entries, lookup, lookup_bytes, same_entries, InfoEntry};
use vstd::pervasive::unreached;

verus! {

/// A compute platform: its native identifier, the attribute buffers
/// fetched for it, and its enumerated devices.
pub struct Platform {
    pub id: u64,
    pub info: Vec<InfoEntry>,
    pub devs: Vec<Device>,
}

/// Two platforms carry the same identifier, the same attributes and the
/// same devices.
pub open spec fn same_platform(a: Platform, b: Platform) -> bool {
    a.id == b.id && same_entries(a.info@, b.info@) && a.devs@.len() == b.devs@.len()
        && forall|i: int| 0 <= i < a.devs@.len() ==> same_device(#[trigger] a.devs@[i], b.devs@[i])
}

impl Clone for Platform {
    /// A platform clones to one with the same identifier, attributes and
    /// devices, so every accessor answers alike on the clone.
    fn clone(&self) -> (r: Platform)
        ensures
            same_platform(r, *self),
    {
        let mut devs: Vec<Device> = Vec::new();
        let mut i: usize = 0;
        while i < self.devs.len()
            invariant
                i <= self.devs@.len(),
                devs@.len() == i,
                forall|k: int| 0 <= k < i ==> same_device(#[trigger] devs@[k], self.devs@[k]),
            decreases self.devs@.len() - i,
        {
            devs.push(self.devs[i].clone());
            i = i + 1;
        }
        Platform { id: self.id, info: copy_entries(&self.info), devs }
    }
}

/// A valid device-type mask: the all-devices mask, or a nonempty
/// combination of the five device-type bits.
pub open spec fn valid_type_mask(mask: u64) -> bool {
    mask == CL_DEVICE_TYPE_ALL || (mask != 0 && mask & 0x1F == mask)
}

/// Whether a device of type `t` answers to the mask: everything but a
/// custom device under the all-devices mask, otherwise any device whose
/// type shares a bit with the mask.
pub open spec fn type_matches(t: u64, mask: u64) -> bool {
    if mask == CL_DEVICE_TYPE_ALL {
        t != CL_DEVICE_TYPE_CUSTOM
    } else {
        t & mask != 0
    }
}

/// The stored type of a device, read from its attribute buffer.
pub open spec fn stored_type(d: Device) -> u64 {
    le64(d.info_bytes(CL_DEVICE_TYPE)) as u64
}

/// The devices of `devs` that answer to `mask`, in their stored order.
pub open spec fn selected(devs: Seq<Device>, mask: u64) -> Seq<Device>
    decreases devs.len(),
{
    if devs.len() == 0 {
        Seq::empty()
    } else {
        let rest = selected(devs.drop_last(), mask);
        if type_matches(stored_type(devs.last()), mask) {
            rest.push(devs.last())
        } else {
            rest
        }
    }
}

impl Platform {
    /// Whether an attribute buffer is stored under `key`.
    pub open spec fn has_info(self, key: u32) -> bool {
        lookup(self.info@, key) is Some
    }

    /// The attribute buffer stored under `key`.
    pub open spec fn info_bytes(self, key: u32) -> Seq<u8> {
        lookup(self.info@, key)->Some_0
    }

    /// Every held device carries its type attribute.
    pub open spec fn devices_typed(self) -> bool {
        forall|i: int| 0 <= i < self.devs@.len() ==> (#[trigger] self.devs@[i]).has_info(
            CL_DEVICE_TYPE,
        )
    }

    /// The stored buffer for `key`.
    fn raw(&self, key: u32) -> (r: &Vec<u8>)
        requires
            self.has_info(key),
        ensures
            r@ == self.info_bytes(key),
    {
        match lookup_bytes(&self.info, key) {
            Some(b) => b,
            None => unreached(),
        }
    }

    /// The text stored under `name`, or the invalid-value status where no
    /// attribute carries that code.
    pub fn get_info(&self, name: u32) -> (r: Result<String, i32>)
        requires
            self.has_info(name) ==> is_text(self.info_bytes(name)),
        ensures
            self.has_info(name) ==> (r matches Ok(t) && t@ == text_of(self.info_bytes(name))),
            !self.has_info(name) ==> r == Err::<String, i32>(CL_INVALID_VALUE),
    {
        match lookup_bytes(&self.info, name) {
            Some(b) => Ok(text_string(b)),
            None => Err(CL_INVALID_VALUE),
        }
    }

    pub fn profile(&self) -> (r: String)
        requires
            self.has_info(CL_PLATFORM_PROFILE),
            is_text(self.info_bytes(CL_PLATFORM_PROFILE)),
        ensures
            r@ == text_of(self.info_bytes(CL_PLATFORM_PROFILE)),
    {
        text_string(self.raw(CL_PLATFORM_PROFILE))
    }

    pub fn version(&self) -> (r: String)
        requires
            self.has_info(CL_PLATFORM_VERSION),
            is_text(self.info_bytes(CL_PLATFORM_VERSION)),
        ensures
            r@ == text_of(self.info_bytes(CL_PLATFORM_VERSION)),
    {
        text_string(self.raw(CL_PLATFORM_VERSION))
    }

    pub fn name(&self) -> (r: String)
        requires
            self.has_info(CL_PLATFORM_NAME),
            is_text(self.info_bytes(CL_PLATFORM_NAME)),
        ensures
            r@ == text_of(self.info_bytes(CL_PLATFORM_NAME)),
    {
        text_string(self.raw(CL_PLATFORM_NAME))
    }

    pub fn vendor(&self) -> (r: String)
        requires
            self.has_info(CL_PLATFORM_VENDOR),
            is_text(self.info_bytes(CL_PLATFORM_VENDOR)),
        ensures
            r@ == text_of(self.info_bytes(CL_PLATFORM_VENDOR)),
    {
        text_string(self.raw(CL_PLATFORM_VENDOR))
    }

    pub fn extensions(&self) -> (r: Vec<String>)
        requires
            self.has_info(CL_PLATFORM_EXTENSIONS),
            is_text(self.info_bytes(CL_PLATFORM_EXTENSIONS)),
        ensures
            r@.map_values(|p: String| p@) == text_pieces(
                self.info_bytes(CL_PLATFORM_EXTENSIONS),
                SPACE,
            ),
    {
        text_list(self.raw(CL_PLATFORM_EXTENSIONS), SPACE)
    }

    /// The held devices that answer to the type mask, in their stored
    /// order; an invalid mask or an empty selection is a status code.
    pub fn devices(&self, device_type: u64) -> (r: Result<Vec<Device>, i32>)
        requires
            self.devices_typed(),
        ensures
            !valid_type_mask(device_type) ==> r == Err::<Vec<Device>, i32>(
                CL_INVALID_DEVICE_TYPE,
            ),
            valid_type_mask(device_type) && selected(self.devs@, device_type).len() == 0 ==> r
                == Err::<Vec<Device>, i32>(CL_DEVICE_NOT_FOUND),
            valid_type_mask(device_type) && selected(self.devs@, device_type).len() > 0 ==> (
            r matches Ok(ds) && ds@.len() == selected(self.devs@, device_type).len() && forall|
                i: int,
            |
                0 <= i < ds@.len() ==> same_device(
                    #[trigger] ds@[i],
                    selected(self.devs@, device_type)[i],
                )),
    {
        if !(device_type == CL_DEVICE_TYPE_ALL || (device_type != 0 && device_type & 0x1F
            == device_type)) {
            return Err(CL_INVALID_DEVICE_TYPE);
        }
        let mut out: Vec<Device> = Vec::new();
        let mut i: usize = 0;
        proof {
            assert(self.devs@.take(0) =~= Seq::<Device>::empty());
        }
        while i < self.devs.len()
            invariant
                i <= self.devs@.len(),
                self.devices_typed(),
                out@.len() == selected(self.devs@.take(i as int), device_type).len(),
                forall|k: int|
                    0 <= k < out@.len() ==> same_device(
                        #[trigger] out@[k],
                        selected(self.devs@.take(i as int), device_type)[k],
                    ),
            decreases self.devs@.len() - i,
        {
            let d = &self.devs[i];
            let t = d.device_type();
            proof {
                assert(self.devs@.take(i + 1).drop_last() =~= self.devs@.take(i as int));
                assert(self.devs@.take(i + 1).last() == self.devs@[i as int]);
            }
            if device_type == CL_DEVICE_TYPE_ALL {
                if t != CL_DEVICE_TYPE_CUSTOM {
                    out.push(d.clone());
                }
            } else {
                if t & device_type != 0 {
                    out.push(d.clone());
                }
            }
            i = i + 1;
        }
        proof {
            assert(self.devs@.take(self.devs@.len() as int) =~= self.devs@);
        }
        if out.len() == 0 {
            Err(CL_DEVICE_NOT_FOUND)
        } else {
            Ok(out)
        }
    }
}

} // verus!
