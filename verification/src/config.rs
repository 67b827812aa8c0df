use vstd::prelude::*;

verus! {

/// Method run when none is named.
pub open spec fn default_method() -> Seq<char> {
    "forward"@
}

/// The method named by `method`, or the default one.
pub open spec fn method_or_default(method: Option<String>) -> Seq<char> {
    match method {
        Some(m) => m@,
        None => default_method(),
    }
}

/// Options for XNNPACK CPU inference.
#[derive(Clone, Debug)]
pub struct XnnpackOptions {
    pub num_threads: usize,
    pub method: Option<String>,
}

impl XnnpackOptions {
    /// The method to run: the one named in the options, else `"forward"`.
    pub fn method_name(&self) -> (r: &str)
        ensures
            r@ == method_or_default(self.method),
    {
        match &self.method {
            Some(m) => m.as_str(),
            None => "forward",
        }
    }
}

impl Default for XnnpackOptions {
    fn default() -> (r: Self)
        ensures
            r.num_threads == 0,
            r.method is None,
    {
        XnnpackOptions { num_threads: 0, method: None }
    }
}

/// Options for Vulkan GPU inference.
#[derive(Clone, Debug)]
pub struct VulkanOptions {
    pub method: Option<String>,
}

impl VulkanOptions {
    /// The method to run: the one named in the options, else `"forward"`.
    pub fn method_name(&self) -> (r: &str)
        ensures
            r@ == method_or_default(self.method),
    {
        match &self.method {
            Some(m) => m.as_str(),
            None => "forward",
        }
    }
}

impl Default for VulkanOptions {
    fn default() -> (r: Self)
        ensures
            r.method is None,
    {
        VulkanOptions { method: None }
    }
}

} // verus!
