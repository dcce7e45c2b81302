//! The validation layers that the renderer asks the driver for.

use vstd::prelude::*;

verus! {

/// The name of the one validation layer in use.
pub open spec fn validation_layer() -> Seq<char> {
    "VK_LAYER_KHRONOS_validation"@
}

/// Whether the validation layer is among the layers that the driver offers.
/// `available_layers` holds the names of these layers.
pub fn check_validation_layer_support(available_layers: &Vec<String>) -> (supported: bool)
    ensures
        supported <==> exists|i: int|
            0 <= i < available_layers@.len() && (#[trigger] available_layers@[i])@
                == validation_layer(),
{
    let wanted = "VK_LAYER_KHRONOS_validation".to_owned();
    let mut i: usize = 0;
    while i < available_layers.len()
        invariant
            i <= available_layers@.len(),
            wanted@ == validation_layer(),
            forall|j: int| 0 <= j < i ==> (#[trigger] available_layers@[j])@ != validation_layer(),
        decreases available_layers@.len() - i,
    {
        if available_layers[i] == wanted {
            return true;
        }
        i += 1;
    }
    false
}

} // verus!
