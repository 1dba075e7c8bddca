use vstd::prelude::*;

verus! {

/// Access rights of a device handle.
pub const GENERIC_READ: u32 = 0x8000_0000;
pub const GENERIC_WRITE: u32 = 0x4000_0000;

/// How a device is opened.
#[derive(Clone, Copy, PartialEq, Eq, Structural, Debug)]
pub enum DeviceAccess {
    Read,
    Write,
    ReadWrite,
}

/// The access rights that a way of opening asks for.
pub fn access_rights(access: DeviceAccess) -> (r: u32)
    ensures
        r == match access {
            DeviceAccess::Read => GENERIC_READ,
            DeviceAccess::Write => GENERIC_WRITE,
            DeviceAccess::ReadWrite => GENERIC_READ | GENERIC_WRITE,
        },
{
    match access {
        DeviceAccess::Read => GENERIC_READ,
        DeviceAccess::Write => GENERIC_WRITE,
        DeviceAccess::ReadWrite => GENERIC_READ | GENERIC_WRITE,
    }
}

/// The text of UTF-16 units: a unit outside the surrogates is its own
/// character, a leading surrogate followed by a trailing one is the pair's
/// character, and any other surrogate is replaced by U+FFFD (an unpaired
/// leading surrogate leaves the unit after it to be read on its own).
pub open spec fn utf16_lossy(units: Seq<u16>) -> Seq<char>
    decreases units.len(),
{
    if units.len() == 0 {
        Seq::empty()
    } else {
        let u = units[0];
        if u < 0xD800 || u >= 0xE000 {
            seq![u as char] + utf16_lossy(units.skip(1))
        } else if u < 0xDC00 && units.len() >= 2 && 0xDC00 <= units[1] && units[1] < 0xE000 {
            seq![(0x10000 + (u - 0xD800) * 0x400 + (units[1] - 0xDC00)) as char] + utf16_lossy(units.skip(2))
        } else {
            seq!['\u{FFFD}'] + utf16_lossy(units.skip(1))
        }
    }
}

/// The text of UTF-16 units, as [`utf16_lossy`] reads them (`String::from_utf16_lossy`).
#[verifier::external_body]
pub(crate) fn from_utf16_lossy(units: &[u16]) -> (r: String)
    ensures
        r@ == utf16_lossy(units@),
{
    String::from_utf16_lossy(units)
}

/// The UTF-16 unit at unit index `i` of the bytes that follow a 4-byte size field.
pub open spec fn unit_at(b: Seq<u8>, i: int) -> u16 {
    (b[4 + 2 * i] as u16) | ((b[5 + 2 * i] as u16) << 8u16)
}

/// The units of a device path, without the closing zero unit.
pub open spec fn path_units(b: Seq<u8>) -> Seq<u16> {
    Seq::new(((b.len() - 4) / 2 - 1) as nat, |i: int| unit_at(b, i))
}

/// The path of a device, as the system describes a device interface: a
/// 4-byte size field, then a zero-terminated UTF-16 string.
pub struct DevicePath {
    path: Vec<u8>,
}

impl DevicePath {
    pub closed spec fn view(&self) -> Seq<u8> {
        self.path@
    }

    /// Whether the path holds at least one unit after its size field.
    pub open spec fn wf(&self) -> bool {
        self.view().len() >= 6
    }

    pub fn new(path: Vec<u8>) -> (r: Self)
        ensures
            r.view() == path@,
    {
        DevicePath { path }
    }

    /// The units of the path, without the closing zero unit.
    pub fn units(&self) -> (r: Vec<u16>)
        requires
            self.wf(),
        ensures
            r@ == path_units(self.view()),
    {
        let n = (self.path.len() - 4) / 2 - 1;
        let mut r: Vec<u16> = Vec::with_capacity(n);
        let mut i: usize = 0;
        while i < n
            invariant
                n == (self.path@.len() - 4) / 2 - 1,
                self.path@.len() >= 6,
                i <= n,
                r@ == path_units(self.path@).take(i as int),
            decreases n - i,
        {
            assert(5 + 2 * i < self.path.len()) by (nonlinear_arith)
                requires
                    i < n,
                    n == (self.path.len() - 4) / 2 - 1,
            ;
            let lo = self.path[4 + 2 * i];
            let hi = self.path[5 + 2 * i];
            r.push((lo as u16) | ((hi as u16) << 8));
            i = i + 1;
            assert(r@ =~= path_units(self.path@).take(i as int));
        }
        assert(path_units(self.path@).take(n as int) =~= path_units(self.path@));
        r
    }

    /// The units of the path with its closing unit, as the system takes a path.
    pub fn wide(&self) -> (r: Vec<u16>)
        requires
            self.wf(),
        ensures
            r@ == Seq::new(((self.view().len() - 4) / 2) as nat, |i: int| unit_at(self.view(), i)),
    {
        let n = (self.path.len() - 4) / 2;
        let mut r: Vec<u16> = Vec::with_capacity(n);
        let mut i: usize = 0;
        while i < n
            invariant
                n == (self.path@.len() - 4) / 2,
                self.path@.len() >= 6,
                i <= n,
                r@ == Seq::new(n as nat, |j: int| unit_at(self.path@, j)).take(i as int),
            decreases n - i,
        {
            assert(5 + 2 * i < self.path.len()) by (nonlinear_arith)
                requires
                    i < n,
                    n == (self.path.len() - 4) / 2,
            ;
            let lo = self.path[4 + 2 * i];
            let hi = self.path[5 + 2 * i];
            r.push((lo as u16) | ((hi as u16) << 8));
            i = i + 1;
            assert(r@ =~= Seq::new(n as nat, |j: int| unit_at(self.path@, j)).take(i as int));
        }
        assert(Seq::new(n as nat, |j: int| unit_at(self.path@, j)).take(n as int) =~= Seq::new(
            n as nat,
            |j: int| unit_at(self.path@, j),
        ));
        r
    }

    /// The path as text.
    pub fn to_string(&self) -> (r: String)
        requires
            self.wf(),
        ensures
            r@ == utf16_lossy(path_units(self.view())),
    {
        let units = self.units();
        from_utf16_lossy(units.as_slice())
    }
}

/// What the system tells of a HID device.
pub struct DeviceInfo {
    vendor_id: u16,
    product_id: u16,
    usage_page: u16,
    usage_id: u16,
    input_report_byte_len: u16,
    output_report_byte_len: u16,
    path: DevicePath,
    manufacturer: String,
    product: String,
}

impl DeviceInfo {
    #[verifier::type_invariant]
    spec fn inv(self) -> bool {
        self.path.wf()
    }

    pub fn new(
        vendor_id: u16,
        product_id: u16,
        usage_page: u16,
        usage_id: u16,
        input_report_byte_len: u16,
        output_report_byte_len: u16,
        path: DevicePath,
        manufacturer: String,
        product: String,
    ) -> (r: Self)
        requires
            path.wf(),
        ensures
            r.spec_vendor_id() == vendor_id,
            r.spec_product_id() == product_id,
            r.spec_usage_page() == usage_page,
            r.spec_usage_id() == usage_id,
            r.spec_input_len() == input_report_byte_len,
            r.spec_output_len() == output_report_byte_len,
            r.spec_path() == path.view(),
            r.spec_manufacturer() == manufacturer@,
            r.spec_product() == product@,
    {
        DeviceInfo {
            vendor_id,
            product_id,
            usage_page,
            usage_id,
            input_report_byte_len,
            output_report_byte_len,
            path,
            manufacturer,
            product,
        }
    }

    pub closed spec fn spec_vendor_id(&self) -> u16 {
        self.vendor_id
    }

    pub closed spec fn spec_product_id(&self) -> u16 {
        self.product_id
    }

    pub closed spec fn spec_usage_page(&self) -> u16 {
        self.usage_page
    }

    pub closed spec fn spec_usage_id(&self) -> u16 {
        self.usage_id
    }

    pub closed spec fn spec_input_len(&self) -> u16 {
        self.input_report_byte_len
    }

    pub closed spec fn spec_output_len(&self) -> u16 {
        self.output_report_byte_len
    }

    pub closed spec fn spec_path(&self) -> Seq<u8> {
        self.path.view()
    }

    pub closed spec fn spec_manufacturer(&self) -> Seq<char> {
        self.manufacturer@
    }

    pub closed spec fn spec_product(&self) -> Seq<char> {
        self.product@
    }

    pub fn vendor_id(&self) -> (r: u16)
        ensures
            r == self.spec_vendor_id(),
    {
        self.vendor_id
    }

    pub fn product_id(&self) -> (r: u16)
        ensures
            r == self.spec_product_id(),
    {
        self.product_id
    }

    pub fn usage_page(&self) -> (r: u16)
        ensures
            r == self.spec_usage_page(),
    {
        self.usage_page
    }

    pub fn usage_id(&self) -> (r: u16)
        ensures
            r == self.spec_usage_id(),
    {
        self.usage_id
    }

    pub fn input_report_byte_len(&self) -> (r: u16)
        ensures
            r == self.spec_input_len(),
    {
        self.input_report_byte_len
    }

    pub fn output_report_byte_len(&self) -> (r: u16)
        ensures
            r == self.spec_output_len(),
    {
        self.output_report_byte_len
    }

    /// The device path as text.
    pub fn path(&self) -> (r: String)
        ensures
            r@ == utf16_lossy(path_units(self.spec_path())),
    {
        proof {
            use_type_invariant(self);
        }
        self.path.to_string()
    }

    /// The device path with its closing unit, as the system opens it.
    pub fn wide_path(&self) -> (r: Vec<u16>)
        ensures
            r@ == Seq::new(((self.spec_path().len() - 4) / 2) as nat, |i: int| unit_at(self.spec_path(), i)),
    {
        proof {
            use_type_invariant(self);
        }
        self.path.wide()
    }

    pub fn manufacturer(&self) -> (r: &str)
        ensures
            r@ == self.spec_manufacturer(),
    {
        self.manufacturer.as_str()
    }

    pub fn product(&self) -> (r: &str)
        ensures
            r@ == self.spec_product(),
    {
        self.product.as_str()
    }
}

/// The text in a buffer of UTF-16 units up to its first zero unit; the
/// buffer is then emptied by a zero in its first unit, for the next string.
pub fn take_str(buf: &mut Vec<u16>) -> (r: String)
    requires
        exists|i: int| 0 <= i < old(buf)@.len() && old(buf)@[i] == 0,
    ensures
        exists|n: int|
            0 <= n < old(buf)@.len() && old(buf)@[n] == 0 && (forall|j: int| 0 <= j < n ==> old(buf)@[j] != 0)
                && r@ == utf16_lossy(old(buf)@.take(n)),
        final(buf)@ == old(buf)@.update(0, 0),
{
    let mut n: usize = 0;
    while buf[n] != 0
        invariant
            n < buf.len(),
            exists|i: int| n <= i < buf@.len() && buf@[i] == 0,
            forall|j: int| 0 <= j < n ==> buf@[j] != 0,
        decreases buf@.len() - n,
    {
        n = n + 1;
    }
    let mut units: Vec<u16> = Vec::with_capacity(n);
    let mut i: usize = 0;
    while i < n
        invariant
            i <= n,
            n < buf@.len(),
            units@ == buf@.take(i as int),
        decreases n - i,
    {
        units.push(buf[i]);
        i = i + 1;
        assert(units@ =~= buf@.take(i as int));
    }
    let ghost before = buf@;
    let r = from_utf16_lossy(units.as_slice());
    buf.set(0, 0);
    assert(before[n as int] == 0);
    r
}

/// The report buffers of a device: byte 0 of each is the report id.
pub struct Device {
    input: Vec<u8>,
    output: Vec<u8>,
}

impl Device {
    pub closed spec fn spec_input(&self) -> Seq<u8> {
        self.input@
    }

    pub closed spec fn spec_output(&self) -> Seq<u8> {
        self.output@
    }

    /// Zeroed report buffers of the lengths the device reports.
    pub fn new(info: &DeviceInfo) -> (r: Self)
        ensures
            r.spec_input() == Seq::new(info.spec_input_len() as nat, |i: int| 0u8),
            r.spec_output() == Seq::new(info.spec_output_len() as nat, |i: int| 0u8),
    {
        Device { input: zeroed(info.input_report_byte_len() as usize), output: zeroed(
            info.output_report_byte_len() as usize,
        ) }
    }

    /// Puts `data` after the report id of the output report, as much of it
    /// as fits; the rest of the report keeps what it held.
    pub fn set_output(&mut self, data: &[u8])
        requires
            old(self).spec_output().len() >= 1,
        ensures
            ({
                let o = old(self).spec_output();
                let c = if data@.len() < o.len() - 1 {
                    data@.len() as int
                } else {
                    o.len() - 1
                };
                final(self).spec_output() == o.take(1) + data@.take(c) + o.skip(1 + c)
            }),
            final(self).spec_input() == old(self).spec_input(),
    {
        let ghost o = self.output@;
        let n = self.output.len() - 1;
        let c = if data.len() < n { data.len() } else { n };
        let mut i: usize = 0;
        while i < c
            invariant
                c <= n,
                n == o.len() - 1,
                c <= data@.len(),
                i <= c,
                self.output@.len() == o.len(),
                self.output@ == o.take(1) + data@.take(i as int) + o.skip(1 + i),
                self.input@ == old(self).input@,
            decreases c - i,
        {
            self.output.set(1 + i, data[i]);
            i = i + 1;
            assert(self.output@ =~= o.take(1) + data@.take(i as int) + o.skip(1 + i));
        }
    }

    /// The output report, as it is written to the device.
    pub fn output(&self) -> (r: &[u8])
        ensures
            r@ == self.spec_output(),
    {
        self.output.as_slice()
    }

    /// Takes in an input report read from the device.
    pub fn set_input(&mut self, report: &[u8])
        requires
            report@.len() == old(self).spec_input().len(),
        ensures
            final(self).spec_input() == report@,
            final(self).spec_output() == old(self).spec_output(),
    {
        let mut i: usize = 0;
        while i < report.len()
            invariant
                i <= report@.len(),
                self.input@.len() == report@.len(),
                forall|j: int| 0 <= j < i ==> self.input@[j] == report@[j],
                self.output@ == old(self).output@,
            decreases report@.len() - i,
        {
            self.input.set(i, report[i]);
            i = i + 1;
        }
        assert(self.input@ =~= report@);
    }

    /// Copies the data after the report id of the input report into `input`,
    /// as much of it as fits.
    pub fn read_input(&self, input: &mut Vec<u8>)
        requires
            self.spec_input().len() >= 1,
        ensures
            ({
                let b = self.spec_input();
                let c = if old(input)@.len() < b.len() - 1 {
                    old(input)@.len() as int
                } else {
                    b.len() - 1
                };
                final(input)@ == b.subrange(1, 1 + c) + old(input)@.skip(c)
            }),
    {
        let ghost o = input@;
        let n = self.input.len() - 1;
        let c = if input.len() < n { input.len() } else { n };
        let mut i: usize = 0;
        while i < c
            invariant
                c <= n,
                n == self.input@.len() - 1,
                c <= o.len(),
                i <= c,
                input@.len() == o.len(),
                input@ == self.input@.subrange(1, 1 + i) + o.skip(i as int),
            decreases c - i,
        {
            input.set(i, self.input[1 + i]);
            i = i + 1;
            assert(input@ =~= self.input@.subrange(1, 1 + i) + o.skip(i as int));
        }
    }
}

fn zeroed(n: usize) -> (r: Vec<u8>)
    ensures
        r@ == Seq::new(n as nat, |i: int| 0u8),
{
    let mut v: Vec<u8> = Vec::with_capacity(n);
    let mut i: usize = 0;
    while i < n
        invariant
            i <= n,
            v@ == Seq::new(i as nat, |j: int| 0u8),
        decreases n - i,
    {
        v.push(0);
        i = i + 1;
        assert(v@ =~= Seq::new(i as nat, |j: int| 0u8));
    }
    v
}

} // verus!
