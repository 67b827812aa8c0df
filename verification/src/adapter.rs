use vstd::prelude::*;

use crate::et_error::ExecuTorchError;

verus! {

/// Bookkeeping for the runtime's single, process-wide external GPU adapter: which
/// device it was registered for and how many live registrations share it.
///
/// A registration for one device excludes every other device until the last
/// registration is released, which is when the adapter must be cleared.
#[derive(Debug)]
pub struct RegistrationState {
    device_raw: Option<u64>,
    count: usize,
}

/// Abstract registration state: the registered device and the number of live
/// registrations.
pub struct RegistrationView {
    pub device: Option<u64>,
    pub count: nat,
}

/// Whether registering `device` is allowed in state `v`.
pub open spec fn may_register(v: RegistrationView, device: u64) -> bool {
    v.device matches Some(d) ==> d == device
}

/// State after one more registration for `device`.
pub open spec fn after_register(v: RegistrationView, device: u64) -> RegistrationView {
    RegistrationView { device: Some(device), count: v.count + 1 }
}

/// State after one registration is released.
pub open spec fn after_release(v: RegistrationView) -> RegistrationView {
    let count = if v.count > 0 {
        (v.count - 1) as nat
    } else {
        0
    };
    RegistrationView { device: if count == 0 {
        None
    } else {
        v.device
    }, count }
}

impl View for RegistrationState {
    type V = RegistrationView;

    closed spec fn view(&self) -> RegistrationView {
        RegistrationView { device: self.device_raw, count: self.count as nat }
    }
}

impl RegistrationState {
    #[verifier::type_invariant]
    spec fn inv(&self) -> bool {
        self.device_raw is None <==> self.count == 0
    }

    /// Whether the state is consistent: a device is recorded exactly while some
    /// registration is live.
    pub open spec fn consistent(v: RegistrationView) -> bool {
        v.device is None <==> v.count == 0
    }

    /// No adapter registered.
    pub fn new() -> (r: Self)
        ensures
            r@.device is None,
            r@.count == 0,
    {
        RegistrationState { device_raw: None, count: 0 }
    }

    /// Every state value is consistent.
    pub fn check_consistent(&self)
        ensures
            Self::consistent(self@),
    {
        proof {
            use_type_invariant(self);
        }
    }

    /// Number of live registrations.
    pub fn count(&self) -> (r: usize)
        ensures
            r == self@.count,
    {
        self.count
    }

    /// The device the adapter is registered for, if any.
    pub fn device(&self) -> (r: Option<u64>)
        ensures
            r == self@.device,
    {
        self.device_raw
    }

    /// Refuses to register `device_raw` while the adapter belongs to another device.
    pub fn check_register(&self, device_raw: u64) -> (r: Result<(), ExecuTorchError>)
        ensures
            r is Ok <==> may_register(self@, device_raw),
            r matches Err(e) ==> e is Execution,
    {
        match self.device_raw {
            Some(existing) => {
                if existing != device_raw {
                    return Err(
                        ExecuTorchError::Execution(
                            String::from_str(
                                "ExecuTorch external Vulkan adapter is already registered for a different VkDevice",
                            ),
                        ),
                    );
                }
                Ok(())
            },
            None => Ok(()),
        }
    }

    /// Records a successful registration for `device_raw`.
    pub fn record_register(&mut self, device_raw: u64)
        requires
            may_register(old(self)@, device_raw),
            old(self)@.count < usize::MAX,
        ensures
            final(self)@ == after_register(old(self)@, device_raw),
    {
        *self = RegistrationState { device_raw: Some(device_raw), count: self.count + 1 };
    }

    /// Releases one registration; returns whether it was the last one, in which case
    /// the adapter must now be cleared.
    pub fn release(&mut self) -> (should_clear: bool)
        ensures
            final(self)@ == after_release(old(self)@),
            should_clear == (final(self)@.count == 0),
    {
        proof {
            use_type_invariant(&*self);
        }
        let count = if self.count > 0 {
            self.count - 1
        } else {
            0
        };
        let clear = count == 0;
        if clear {
            *self = RegistrationState { device_raw: None, count: 0 };
        } else {
            *self = RegistrationState { device_raw: self.device_raw, count };
        }
        clear
    }
}

/// Registrations and releases keep the state consistent.
pub proof fn lemma_transitions_consistent(v: RegistrationView, device: u64)
    requires
        RegistrationState::consistent(v),
    ensures
        may_register(v, device) ==> RegistrationState::consistent(after_register(v, device)),
        RegistrationState::consistent(after_release(v)),
{
}

/// While a registration is live, no other device can register.
pub proof fn lemma_exclusive(v: RegistrationView, device: u64, other: u64)
    requires
        RegistrationState::consistent(v),
        may_register(v, device),
        other != device,
    ensures
        !may_register(after_register(v, device), other),
{
}

/// Releasing a registration undoes it: a registration followed by a release leaves a
/// live adapter as it was (and the release does not clear it), while for the first
/// registration the release clears the adapter again.
pub proof fn lemma_register_release(v: RegistrationView, device: u64)
    requires
        RegistrationState::consistent(v),
        may_register(v, device),
    ensures
        v.count > 0 ==> after_release(after_register(v, device)) == v && after_release(
            after_register(v, device),
        ).count > 0,
        v.count == 0 ==> after_release(after_register(v, device)) == v && after_release(
            after_register(v, device),
        ).count == 0,
{
}

/// After `n` registrations of one device on a cleared adapter, exactly the `n`-th
/// release clears it.
pub proof fn lemma_balanced(n: nat, device: u64)
    requires
        n > 0,
    ensures
        registered_n(n, device) == (RegistrationView { device: Some(device), count: n }),
        forall|k: nat| #![trigger released_k(n, device, k)]
            k < n ==> released_k(n, device, k).count == n - k && released_k(n, device, k).device
                == Some(device),
        released_k(n, device, n).count == 0,
        released_k(n, device, n).device is None,
{
    lemma_registered(n, device);
    assert forall|k: nat| #![trigger released_k(n, device, k)] k <= n implies released_k(
        n,
        device,
        k,
    ).count == n - k && (k < n ==> released_k(n, device, k).device == Some(device)) && (k == n
        ==> released_k(n, device, k).device is None) by {
        lemma_released(n, device, k);
    }
}

/// The state after `n` registrations of `device` on a cleared adapter.
pub open spec fn registered_n(n: nat, device: u64) -> RegistrationView
    decreases n,
{
    if n == 0 {
        RegistrationView { device: None, count: 0 }
    } else {
        after_register(registered_n((n - 1) as nat, device), device)
    }
}

/// The state after `n` registrations followed by `k` releases.
pub open spec fn released_k(n: nat, device: u64, k: nat) -> RegistrationView
    decreases k,
{
    if k == 0 {
        registered_n(n, device)
    } else {
        after_release(released_k(n, device, (k - 1) as nat))
    }
}

proof fn lemma_registered(n: nat, device: u64)
    ensures
        registered_n(n, device).count == n,
        n > 0 ==> registered_n(n, device).device == Some(device),
        n == 0 ==> registered_n(n, device).device is None,
    decreases n,
{
    if n > 0 {
        lemma_registered((n - 1) as nat, device);
    }
}

proof fn lemma_released(n: nat, device: u64, k: nat)
    requires
        n > 0,
        k <= n,
    ensures
        released_k(n, device, k).count == n - k,
        k < n ==> released_k(n, device, k).device == Some(device),
        k == n ==> released_k(n, device, k).device is None,
    decreases k,
{
    if k == 0 {
        lemma_registered(n, device);
    } else {
        lemma_released(n, device, (k - 1) as nat);
    }
}

} // verus!
