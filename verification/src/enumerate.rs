//! The device enumerator: turns platform device-name listings into
//! descriptors, applying the output-device exclusion filter and the
//! virtual-capture relabeling, and picks default devices.

use vstd::prelude::*;

use crate::device::{AudioDevice, DeviceType};
use crate::errors::CaptureError;
use crate::text::contains_ci;

verus! {

/// An output device name passes the exclusion filter: it names neither
/// speakers nor AirPods (case-insensitively).
pub open spec fn include_output_name(n: Seq<char>) -> bool {
    !contains_ci(n, "speakers"@) && !contains_ci(n, "airpods"@)
}

/// Whether an output device name passes the exclusion filter.
pub fn should_include_output_device(name: &str) -> (r: bool)
    ensures
        r == include_output_name(name@),
{
    !crate::text::contains_pat_ci(name, "speakers") && !crate::text::contains_pat_ci(
        name,
        "airpods",
    )
}

/// The output names that survive the exclusion filter, in order.
pub open spec fn outputs_kept(names: Seq<Seq<char>>) -> Seq<Seq<char>>
    decreases names.len(),
{
    if names.len() == 0 {
        Seq::empty()
    } else {
        let rest = outputs_kept(names.drop_last());
        if include_output_name(names.last()) {
            rest.push(names.last())
        } else {
            rest
        }
    }
}

/// The exclusion filter keeps exactly the names it does not exclude.
pub proof fn lemma_outputs_kept_membership(names: Seq<Seq<char>>, n: Seq<char>)
    ensures
        outputs_kept(names).contains(n) <==> names.contains(n) && include_output_name(n),
    decreases names.len(),
{
    if names.len() > 0 {
        lemma_outputs_kept_membership(names.drop_last(), n);
        if names.contains(n) && include_output_name(n) {
            if n != names.last() {
                let i = choose|i: int| 0 <= i < names.len() && names[i] == n;
                assert(names.drop_last()[i] == n);
                assert(names.drop_last().contains(n));
            }
            if outputs_kept(names.drop_last()).contains(n) {
                let j = choose|j: int|
                    0 <= j < outputs_kept(names.drop_last()).len() && outputs_kept(
                        names.drop_last(),
                    )[j] == n;
                assert(outputs_kept(names)[j] == n);
            } else {
                assert(outputs_kept(names).last() == n);
            }
        }
        if outputs_kept(names).contains(n) {
            let j = choose|j: int|
                0 <= j < outputs_kept(names).len() && outputs_kept(names)[j] == n;
            let rest = outputs_kept(names.drop_last());
            if j < rest.len() {
                assert(rest[j] == n);
                let i = choose|i: int| 0 <= i < names.drop_last().len() && names.drop_last()[i] == n;
                assert(names[i] == n);
            } else {
                assert(names.last() == n);
                assert(names[names.len() - 1] == n);
            }
        }
    }
}

/// The views of a sequence of strings.
pub open spec fn name_views(ss: Seq<String>) -> Seq<Seq<char>> {
    ss.map_values(|s: String| s@)
}

/// The name and direction of each listed descriptor.
pub open spec fn device_models(ds: Seq<AudioDevice>) -> Seq<(Seq<char>, DeviceType)> {
    ds.map_values(|d: AudioDevice| (d.name@, d.device_type))
}

/// What the enumerator lists for the given platform name listings: every
/// input name as an input device, then the virtual-capture input names
/// relabeled as outputs, then the native output names, the output entries
/// passing the exclusion filter.
pub open spec fn listed_models(
    ins: Seq<Seq<char>>,
    virt: Seq<Seq<char>>,
    outs: Seq<Seq<char>>,
) -> Seq<(Seq<char>, DeviceType)> {
    ins.map_values(|n: Seq<char>| (n, DeviceType::Input)) + outputs_kept(virt).map_values(
        |n: Seq<char>| (n, DeviceType::Output),
    ) + outputs_kept(outs).map_values(|n: Seq<char>| (n, DeviceType::Output))
}

/// Builds the device listing from the platform's name listings: the input
/// devices, the virtual-capture devices relabeled as outputs (empty where
/// the platform has no such host), and the native output devices.
pub fn list_from_names(
    input_names: &Vec<String>,
    virtual_capture_names: &Vec<String>,
    native_output_names: &Vec<String>,
) -> (r: Vec<AudioDevice>)
    ensures
        device_models(r@) == listed_models(
            name_views(input_names@),
            name_views(virtual_capture_names@),
            name_views(native_output_names@),
        ),
{
    let ghost ins = name_views(input_names@);
    let ghost virt = name_views(virtual_capture_names@);
    let ghost outs = name_views(native_output_names@);
    let mut r: Vec<AudioDevice> = Vec::new();
    let mut i: usize = 0;
    while i < input_names.len()
        invariant
            i <= input_names.len(),
            ins == name_views(input_names@),
            device_models(r@) =~= ins.take(i as int).map_values(
                |n: Seq<char>| (n, DeviceType::Input),
            ),
        decreases input_names.len() - i,
    {
        let d = AudioDevice::new(input_names[i].clone(), DeviceType::Input);
        let ghost r0 = r@;
        r.push(d);
        proof {
            let pre = ins.take(i as int).map_values(|n: Seq<char>| (n, DeviceType::Input));
            let target = ins.take(i + 1).map_values(|n: Seq<char>| (n, DeviceType::Input));
            assert(device_models(r0).len() == r0.len());
            assert(pre.len() == i);
            assert(r0.len() == i);
            assert(r@ == r0.push(d));
            assert forall|l: int| 0 <= l < r@.len() implies device_models(r@)[l] == target[l] by {
                assert(device_models(r@)[l] == (r@[l].name@, r@[l].device_type));
                assert(target[l] == (ins.take(i + 1)[l], DeviceType::Input));
                if l < i {
                    assert(r@[l] == r0[l]);
                    assert(device_models(r0)[l] == pre[l]);
                    assert(pre[l] == (ins.take(i as int)[l], DeviceType::Input));
                } else {
                    assert(r@[l] == d);
                    assert(ins[l] == input_names@[l]@);
                }
            }
            assert(device_models(r@) =~= target);
        }
        i += 1;
    }
    proof {
        assert(ins.take(input_names@.len() as int) =~= ins);
    }
    let ghost head = ins.map_values(|n: Seq<char>| (n, DeviceType::Input));
    let mut j: usize = 0;
    while j < virtual_capture_names.len()
        invariant
            j <= virtual_capture_names.len(),
            virt == name_views(virtual_capture_names@),
            device_models(r@) =~= head + outputs_kept(virt.take(j as int)).map_values(
                |n: Seq<char>| (n, DeviceType::Output),
            ),
        decreases virtual_capture_names.len() - j,
    {
        let ghost r0 = r@;
        let ghost kept0 = outputs_kept(virt.take(j as int));
        let keep = should_include_output_device(virtual_capture_names[j].as_str());
        if keep {
            let d = AudioDevice::new(virtual_capture_names[j].clone(), DeviceType::Output);
            r.push(d);
            proof {
                assert(r@ == r0.push(d));
                assert(d.name@ == virt[j as int]);
            }
        }
        proof {
            assert(virt[j as int] == virtual_capture_names@[j as int]@);
            assert(virt.take(j + 1).drop_last() =~= virt.take(j as int));
            assert(virt.take(j + 1).last() == virt[j as int]);
            let kept1 = outputs_kept(virt.take(j + 1));
            assert(kept1 == if include_output_name(virt[j as int]) {
                kept0.push(virt[j as int])
            } else {
                kept0
            });
            let pre = head + kept0.map_values(|n: Seq<char>| (n, DeviceType::Output));
            let target = head + kept1.map_values(|n: Seq<char>| (n, DeviceType::Output));
            assert(device_models(r0).len() == r0.len());
            assert(pre.len() == head.len() + kept0.len());
            assert(r0.len() == pre.len());
            assert forall|l: int| 0 <= l < r@.len() implies device_models(r@)[l] == target[l] by {
                assert(device_models(r@)[l] == (r@[l].name@, r@[l].device_type));
                if l < r0.len() {
                    assert(r@[l] == r0[l]);
                    assert(device_models(r0)[l] == pre[l]);
                    if l >= head.len() {
                        assert(pre[l] == (kept0[l - head.len()], DeviceType::Output));
                        assert(kept1[l - head.len()] == kept0[l - head.len()]);
                        assert(target[l] == (kept1[l - head.len()], DeviceType::Output));
                    }
                } else {
                    assert(keep);
                    assert(r@[l].name@ == virt[j as int]);
                    assert(kept1[l - head.len()] == virt[j as int]);
                    assert(target[l] == (kept1[l - head.len()], DeviceType::Output));
                }
            }
            assert(device_models(r@).len() == target.len());
            assert(device_models(r@) =~= target);
        }
        j += 1;
    }
    proof {
        assert(virt.take(virtual_capture_names@.len() as int) =~= virt);
    }
    let ghost mid = head + outputs_kept(virt).map_values(|n: Seq<char>| (n, DeviceType::Output));
    let mut k: usize = 0;
    while k < native_output_names.len()
        invariant
            k <= native_output_names.len(),
            outs == name_views(native_output_names@),
            device_models(r@) =~= mid + outputs_kept(outs.take(k as int)).map_values(
                |n: Seq<char>| (n, DeviceType::Output),
            ),
        decreases native_output_names.len() - k,
    {
        let ghost r0 = r@;
        let ghost kept0 = outputs_kept(outs.take(k as int));
        let keep = should_include_output_device(native_output_names[k].as_str());
        if keep {
            let d = AudioDevice::new(native_output_names[k].clone(), DeviceType::Output);
            r.push(d);
            proof {
                assert(r@ == r0.push(d));
                assert(d.name@ == outs[k as int]);
            }
        }
        proof {
            assert(outs[k as int] == native_output_names@[k as int]@);
            assert(outs.take(k + 1).drop_last() =~= outs.take(k as int));
            assert(outs.take(k + 1).last() == outs[k as int]);
            let kept1 = outputs_kept(outs.take(k + 1));
            assert(kept1 == if include_output_name(outs[k as int]) {
                kept0.push(outs[k as int])
            } else {
                kept0
            });
            let pre = mid + kept0.map_values(|n: Seq<char>| (n, DeviceType::Output));
            let target = mid + kept1.map_values(|n: Seq<char>| (n, DeviceType::Output));
            assert(device_models(r0).len() == r0.len());
            assert(pre.len() == mid.len() + kept0.len());
            assert(r0.len() == pre.len());
            assert forall|l: int| 0 <= l < r@.len() implies device_models(r@)[l] == target[l] by {
                assert(device_models(r@)[l] == (r@[l].name@, r@[l].device_type));
                if l < r0.len() {
                    assert(r@[l] == r0[l]);
                    assert(device_models(r0)[l] == pre[l]);
                    if l >= mid.len() {
                        assert(pre[l] == (kept0[l - mid.len()], DeviceType::Output));
                        assert(kept1[l - mid.len()] == kept0[l - mid.len()]);
                        assert(target[l] == (kept1[l - mid.len()], DeviceType::Output));
                    }
                } else {
                    assert(keep);
                    assert(r@[l].name@ == outs[k as int]);
                    assert(kept1[l - mid.len()] == outs[k as int]);
                    assert(target[l] == (kept1[l - mid.len()], DeviceType::Output));
                }
            }
            assert(device_models(r@).len() == target.len());
            assert(device_models(r@) =~= target);
        }
        k += 1;
    }
    proof {
        assert(outs.take(native_output_names@.len() as int) =~= outs);
        assert(device_models(r@) =~= listed_models(ins, virt, outs));
    }
    r
}

/// Wraps the platform's default input device name, when there is one.
pub fn default_input_from(name: Option<String>) -> (r: Result<AudioDevice, CaptureError>)
    ensures
        match name {
            Some(n) => r matches Ok(d) && d.name@ == n@ && d.device_type == DeviceType::Input,
            None => r == Result::<AudioDevice, CaptureError>::Err(CaptureError::DeviceNotFound),
        },
{
    match name {
        Some(n) => Ok(AudioDevice::new(n, DeviceType::Input)),
        None => Err(CaptureError::DeviceNotFound),
    }
}

/// Chooses the default output device name: the virtual-capture default is
/// preferred, the native default is the fallback.
pub fn default_output_from(
    virtual_capture_default: Option<String>,
    native_default: Option<String>,
) -> (r: Result<AudioDevice, CaptureError>)
    ensures
        match virtual_capture_default {
            Some(v) => r matches Ok(d) && d.name@ == v@ && d.device_type == DeviceType::Output,
            None => match native_default {
                Some(n) => r matches Ok(d) && d.name@ == n@ && d.device_type
                    == DeviceType::Output,
                None => r == Result::<AudioDevice, CaptureError>::Err(
                    CaptureError::DeviceNotFound,
                ),
            },
        },
{
    match virtual_capture_default {
        Some(v) => Ok(AudioDevice::new(v, DeviceType::Output)),
        None => match native_default {
            Some(n) => Ok(AudioDevice::new(n, DeviceType::Output)),
            None => Err(CaptureError::DeviceNotFound),
        },
    }
}

} // verus!
