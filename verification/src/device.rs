//! Plain-value model of one attached device and the descriptor reader that
//! turns what the driver reports into an immutable [`DeviceRecord`].

use vstd::prelude::*;

verus! {

/// Everything that can go wrong while discovering devices or running a
/// monitoring session.
#[derive(Clone, Copy, Debug, PartialEq, Eq, Structural)]
pub enum DeviceError {
    /// The platform denied access when the device was opened (common for
    /// devices that require elevated privileges).
    OpenFailed,
    /// The device descriptor was malformed, or a mandatory string
    /// (the manufacturer string) could not be read.
    DescriptorReadFailed,
    /// The device reported no string-table language, or the language query
    /// timed out.
    LanguageQueryFailed,
    /// The driver's own device-listing call failed; distinct from a
    /// per-device read failure.
    EnumerationFailed,
    /// The platform cannot observe hotplug events at all. Never returned by
    /// the session itself: a capability-absent start degrades to a no-op
    /// session, and this variant names the condition the shell logs.
    DriverUnsupported,
    /// Registering the hotplug callback with the driver failed.
    RegistrationFailed,
    /// A delivery to the consumer callback could not be marshalled.
    CallbackDispatchFailed,
    /// A monitoring session is already active; at most one may run at a time.
    AlreadyMonitoring,
}

/// One attached device, fully read. Immutable once constructed.
#[derive(Debug, PartialEq, Eq)]
pub struct DeviceRecord {
    pub vendor_id: u16,
    pub product_id: u16,
    /// Product-name string; empty when the device does not provide one.
    pub device_name: String,
    /// Manufacturer string; always present on a successfully read device.
    pub manufacturer: String,
    /// Serial-number string; empty when the device does not provide one.
    pub serial_number: String,
    pub device_address: u8,
}

/// The identifying fields alone: all that is still known of a device once it
/// has been detached and its strings can no longer be read.
#[derive(Clone, Copy, Debug, PartialEq, Eq, Structural)]
pub struct DeviceIdentity {
    pub vendor_id: u16,
    pub product_id: u16,
}

/// Mathematical image of a [`DeviceRecord`].
#[verifier::ext_equal]
pub ghost struct DeviceRecordView {
    pub vendor_id: u16,
    pub product_id: u16,
    pub device_name: Seq<char>,
    pub manufacturer: Seq<char>,
    pub serial_number: Seq<char>,
    pub device_address: u8,
}

impl Clone for DeviceRecord {
    /// A clone is equal to the original, field for field.
    fn clone(&self) -> (r: Self)
        ensures
            r == *self,
    {
        DeviceRecord {
            vendor_id: self.vendor_id,
            product_id: self.product_id,
            device_name: self.device_name.clone(),
            manufacturer: self.manufacturer.clone(),
            serial_number: self.serial_number.clone(),
            device_address: self.device_address,
        }
    }
}

impl View for DeviceRecord {
    type V = DeviceRecordView;

    open spec fn view(&self) -> DeviceRecordView {
        DeviceRecordView {
            vendor_id: self.vendor_id,
            product_id: self.product_id,
            device_name: self.device_name@,
            manufacturer: self.manufacturer@,
            serial_number: self.serial_number@,
            device_address: self.device_address,
        }
    }
}

/// What the platform driver reports about one device, as plain values: the
/// cached descriptor fields, whether the device could be opened and its
/// descriptor parsed, the supported string-table languages, and each string
/// descriptor (`None` when absent or when its read timed out).
#[derive(Debug)]
pub struct RawDevice {
    pub vendor_id: u16,
    pub product_id: u16,
    pub bus_address: u8,
    /// The platform granted access when the device was opened.
    pub open_ok: bool,
    /// The device descriptor was present and well formed.
    pub descriptor_ok: bool,
    /// Supported string-table languages; empty when the query failed or
    /// timed out.
    pub languages: Vec<u16>,
    pub manufacturer: Option<String>,
    pub product_name: Option<String>,
    pub serial_number: Option<String>,
}

/// Mathematical image of a [`RawDevice`].
#[verifier::ext_equal]
pub ghost struct RawDeviceView {
    pub vendor_id: u16,
    pub product_id: u16,
    pub bus_address: u8,
    pub open_ok: bool,
    pub descriptor_ok: bool,
    pub languages: Seq<u16>,
    pub manufacturer: Option<Seq<char>>,
    pub product_name: Option<Seq<char>>,
    pub serial_number: Option<Seq<char>>,
}

impl View for RawDevice {
    type V = RawDeviceView;

    open spec fn view(&self) -> RawDeviceView {
        RawDeviceView {
            vendor_id: self.vendor_id,
            product_id: self.product_id,
            bus_address: self.bus_address,
            open_ok: self.open_ok,
            descriptor_ok: self.descriptor_ok,
            languages: self.languages@,
            manufacturer: match self.manufacturer {
                Some(s) => Some(s@),
                None => None,
            },
            product_name: match self.product_name {
                Some(s) => Some(s@),
                None => None,
            },
            serial_number: match self.serial_number {
                Some(s) => Some(s@),
                None => None,
            },
        }
    }
}

/// An optional string descriptor, defaulted to the empty string when absent.
pub open spec fn string_or_empty(s: Option<Seq<char>>) -> Seq<char> {
    match s {
        Some(v) => v,
        None => Seq::empty(),
    }
}

/// What reading one device yields: the record when every step succeeds, and
/// otherwise the first failure in the fixed order open, descriptor, language
/// query, manufacturer string. Product-name and serial-number absence is
/// tolerated and defaults to the empty string; manufacturer absence is a hard
/// failure.
pub open spec fn read_device_spec(raw: RawDeviceView) -> Result<DeviceRecordView, DeviceError> {
    if !raw.open_ok {
        Err(DeviceError::OpenFailed)
    } else if !raw.descriptor_ok {
        Err(DeviceError::DescriptorReadFailed)
    } else if raw.languages.len() == 0 {
        Err(DeviceError::LanguageQueryFailed)
    } else if raw.manufacturer is None {
        Err(DeviceError::DescriptorReadFailed)
    } else {
        Ok(DeviceRecordView {
            vendor_id: raw.vendor_id,
            product_id: raw.product_id,
            device_name: string_or_empty(raw.product_name),
            manufacturer: string_or_empty(raw.manufacturer),
            serial_number: string_or_empty(raw.serial_number),
            device_address: raw.bus_address,
        })
    }
}

/// The view of a descriptor-reader result, for stating contracts.
pub open spec fn read_result_view(r: Result<DeviceRecord, DeviceError>) -> Result<
    DeviceRecordView,
    DeviceError,
> {
    match r {
        Ok(d) => Ok(d@),
        Err(e) => Err(e),
    }
}

/// Clones an optional string descriptor, defaulting to the empty string.
fn clone_or_empty(s: &Option<String>) -> (r: String)
    ensures
        r@ == string_or_empty(
            match *s {
                Some(v) => Some(v@),
                None => None,
            },
        ),
{
    match s {
        Some(v) => v.clone(),
        None => String::new(),
    }
}

/// The descriptor reader: builds the immutable record for one device from
/// what the driver reported, or fails with the first error in the fixed
/// order open, descriptor, language query, manufacturer string.
pub fn read_device(raw: &RawDevice) -> (r: Result<DeviceRecord, DeviceError>)
    ensures
        read_result_view(r) == read_device_spec(raw@),
{
    if !raw.open_ok {
        return Err(DeviceError::OpenFailed);
    }
    if !raw.descriptor_ok {
        return Err(DeviceError::DescriptorReadFailed);
    }
    if raw.languages.len() == 0 {
        return Err(DeviceError::LanguageQueryFailed);
    }
    let manufacturer = match &raw.manufacturer {
        Some(s) => s.clone(),
        None => {
            return Err(DeviceError::DescriptorReadFailed);
        },
    };
    Ok(DeviceRecord {
        vendor_id: raw.vendor_id,
        product_id: raw.product_id,
        device_name: clone_or_empty(&raw.product_name),
        manufacturer,
        serial_number: clone_or_empty(&raw.serial_number),
        device_address: raw.bus_address,
    })
}

/// The identifying fields cached in a device's descriptor; they stay valid
/// after the device has been detached.
pub fn identity_of(raw: &RawDevice) -> (r: DeviceIdentity)
    ensures
        r.vendor_id == raw@.vendor_id,
        r.product_id == raw@.product_id,
{
    DeviceIdentity { vendor_id: raw.vendor_id, product_id: raw.product_id }
}

} // verus!
