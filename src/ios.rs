//! iOS run options: the device / Xcode / OS combinations the service
//! supports, and completing a partial choice from them.

use vstd::prelude::*;
use crate::errors::ConfigurationError;

verus! {

#[derive(Debug, Clone, Copy, PartialEq, Eq, Structural)]
pub enum IosDevice {
    IPhone14,
    IPhone15,
}

#[derive(Debug, Clone, Copy, PartialEq, Eq, Structural)]
pub enum XcodeVersion {
    Xcode14_3_1,
    Xcode15_2,
}

#[derive(Debug, Clone, Copy, PartialEq, Eq, Structural)]
pub enum OsVersion {
    Ios16_4,
    Ios17_2,
}

/// A device, Xcode version and OS version, each possibly unset.
pub type IosConfig = (Option<IosDevice>, Option<XcodeVersion>, Option<OsVersion>);

impl IosDevice {
    pub fn as_str(&self) -> (r: &'static str)
        ensures
            r@ == (match self {
                IosDevice::IPhone14 => "iPhone14"@,
                IosDevice::IPhone15 => "iPhone15"@,
            }),
    {
        match self {
            IosDevice::IPhone14 => "iPhone14",
            IosDevice::IPhone15 => "iPhone15",
        }
    }
}

impl XcodeVersion {
    pub fn as_str(&self) -> (r: &'static str)
        ensures
            r@ == (match self {
                XcodeVersion::Xcode14_3_1 => "14.3.1"@,
                XcodeVersion::Xcode15_2 => "15.2"@,
            }),
    {
        match self {
            XcodeVersion::Xcode14_3_1 => "14.3.1",
            XcodeVersion::Xcode15_2 => "15.2",
        }
    }
}

impl OsVersion {
    pub fn as_str(&self) -> (r: &'static str)
        ensures
            r@ == (match self {
                OsVersion::Ios16_4 => "16.4"@,
                OsVersion::Ios17_2 => "17.2"@,
            }),
    {
        match self {
            OsVersion::Ios16_4 => "16.4",
            OsVersion::Ios17_2 => "17.2",
        }
    }
}

/// The supported combinations, in order of preference.
pub open spec fn supported_configs() -> Seq<IosConfig> {
    seq![
        (Some(IosDevice::IPhone14), Some(XcodeVersion::Xcode14_3_1), Some(OsVersion::Ios16_4)),
        (Some(IosDevice::IPhone15), Some(XcodeVersion::Xcode15_2), Some(OsVersion::Ios17_2)),
    ]
}

/// `a` where it is set, else `b`.
pub open spec fn or_else<T>(a: Option<T>, b: Option<T>) -> Option<T> {
    if a is Some {
        a
    } else {
        b
    }
}

/// `p` completed from the first of `configs` that agrees with it on the
/// device, else on the Xcode version, else on the OS version; values that
/// `p` sets are kept. Unchanged where no combination agrees.
pub open spec fn infer_from(configs: Seq<IosConfig>, p: IosConfig) -> IosConfig
    decreases configs.len(),
{
    if configs.len() == 0 {
        p
    } else {
        let (d, x, o) = configs[0];
        if p.0 is Some && d == p.0 {
            (p.0, or_else(p.1, x), or_else(p.2, o))
        } else if p.1 is Some && x == p.1 {
            (or_else(p.0, d), p.1, or_else(p.2, o))
        } else if p.2 is Some && o == p.2 {
            (or_else(p.0, d), or_else(p.1, x), p.2)
        } else {
            infer_from(configs.skip(1), p)
        }
    }
}

/// The supported combinations.
pub fn get_supported_configs() -> (r: Vec<IosConfig>)
    ensures
        r@ == supported_configs(),
{
    let r = vec![
        (Some(IosDevice::IPhone14), Some(XcodeVersion::Xcode14_3_1), Some(OsVersion::Ios16_4)),
        (Some(IosDevice::IPhone15), Some(XcodeVersion::Xcode15_2), Some(OsVersion::Ios17_2)),
    ];
    assert(r@ =~= supported_configs());
    r
}

fn same_device(a: Option<IosDevice>, b: Option<IosDevice>) -> (r: bool)
    ensures
        r == (a == b),
{
    match (a, b) {
        (Some(x), Some(y)) => x == y,
        (None, None) => true,
        _ => false,
    }
}

fn same_xcode(a: Option<XcodeVersion>, b: Option<XcodeVersion>) -> (r: bool)
    ensures
        r == (a == b),
{
    match (a, b) {
        (Some(x), Some(y)) => x == y,
        (None, None) => true,
        _ => false,
    }
}

fn same_os(a: Option<OsVersion>, b: Option<OsVersion>) -> (r: bool)
    ensures
        r == (a == b),
{
    match (a, b) {
        (Some(x), Some(y)) => x == y,
        (None, None) => true,
        _ => false,
    }
}

/// Completes a partial choice of device, Xcode version and OS version from
/// the supported combinations.
pub fn infer_parameters(
    device: Option<IosDevice>,
    xcode_version: Option<XcodeVersion>,
    os_version: Option<OsVersion>,
) -> (r: IosConfig)
    ensures
        r == infer_from(supported_configs(), (device, xcode_version, os_version)),
{
    let configs = get_supported_configs();
    let ghost p = (device, xcode_version, os_version);
    let mut i: usize = 0;
    assert(configs@.skip(0) =~= configs@);
    while i < configs.len()
        invariant
            i <= configs@.len(),
            configs@ == supported_configs(),
            p == (device, xcode_version, os_version),
            infer_from(configs@.skip(i as int), p) == infer_from(supported_configs(), p),
        decreases configs.len() - i,
    {
        let (d, x, o) = configs[i];
        let ghost rest = configs@.skip(i as int);
        proof {
            assert(rest[0] == configs@[i as int]);
            assert(rest.skip(1) =~= configs@.skip(i + 1));
            assert(rest[0] == (d, x, o));
        }
        if device.is_some() && same_device(d, device) {
            let x2 = if xcode_version.is_some() { xcode_version } else { x };
            let o2 = if os_version.is_some() { os_version } else { o };
            return (device, x2, o2);
        }
        if xcode_version.is_some() && same_xcode(x, xcode_version) {
            let d2 = if device.is_some() { device } else { d };
            let o2 = if os_version.is_some() { os_version } else { o };
            return (d2, xcode_version, o2);
        }
        if os_version.is_some() && same_os(o, os_version) {
            let d2 = if device.is_some() { device } else { d };
            let x2 = if xcode_version.is_some() { xcode_version } else { x };
            return (d2, x2, os_version);
        }
        assert(infer_from(rest, p) == infer_from(rest.skip(1), p));
        i = i + 1;
    }
    proof {
        assert(configs@.skip(i as int).len() == 0);
    }
    (device, xcode_version, os_version)
}

pub open spec fn unsupported_ios_message() -> Seq<char> {
    "
Please set --xcode-version, --os-version, and --device correctly.
Supported iOS settings combinations are:
    --xcode_version 14.3.1 --os-version 16.4 --device iPhone14
    --xcode_version 15.2 --os-version 17.2 --device iPhone15
If you provide any single or two of these parameters, the others will be inferred based on supported combinations."@
}

/// Completes a partial choice and accepts it only where the result is one
/// of the supported combinations.
pub fn check_ios_configuration(
    device: Option<IosDevice>,
    xcode_version: Option<XcodeVersion>,
    os_version: Option<OsVersion>,
) -> (r: Result<IosConfig, ConfigurationError>)
    ensures
        ({
            let p = infer_from(supported_configs(), (device, xcode_version, os_version));
            if supported_configs().contains(p) {
                r == Ok::<IosConfig, ConfigurationError>(p)
            } else {
                r matches Err(ConfigurationError::UnsupportedRunConfiguration { message }) && message@
                    == unsupported_ios_message()
            }
        }),
{
    let p = infer_parameters(device, xcode_version, os_version);
    let configs = get_supported_configs();
    let mut i: usize = 0;
    while i < configs.len()
        invariant
            i <= configs@.len(),
            configs@ == supported_configs(),
            p == infer_from(supported_configs(), (device, xcode_version, os_version)),
            forall|j: int| 0 <= j < i ==> configs@[j] != p,
        decreases configs.len() - i,
    {
        let (d, x, o) = configs[i];
        if same_device(d, p.0) && same_xcode(x, p.1) && same_os(o, p.2) {
            assert(configs@[i as int] == (d, x, o));
            assert(supported_configs()[i as int] == p);
            assert(supported_configs().contains(p));
            return Ok(p);
        }
        i = i + 1;
    }
    Err(
        ConfigurationError::UnsupportedRunConfiguration {
            message: "
Please set --xcode-version, --os-version, and --device correctly.
Supported iOS settings combinations are:
    --xcode_version 14.3.1 --os-version 16.4 --device iPhone14
    --xcode_version 15.2 --os-version 17.2 --device iPhone15
If you provide any single or two of these parameters, the others will be inferred based on supported combinations.".to_owned(),
        },
    )
}

} // verus!
