//! The start-up script: one comment line and one background job per service.

use vstd::prelude::*;
use vstd::string::StringExecFns;
use crate::model::{ServiceFile, ServiceView};

verus! {

/// The interpreter line and the blank line that open every script.
pub open spec fn script_head() -> Seq<char> {
    "#!/bin/bash\n\n"@
}

/// The two lines of one service: its name as a comment, then its command as a
/// background job. Both texts stand as they are, without quoting.
pub open spec fn service_lines(service: ServiceView) -> Seq<char> {
    "# "@ + service.name + "\n"@ + service.command + " &\n"@
}

/// The lines of all services, in their order.
pub open spec fn script_body(services: Seq<ServiceView>) -> Seq<char>
    decreases services.len(),
{
    if services.len() == 0 {
        Seq::empty()
    } else {
        script_body(services.drop_last()) + service_lines(services.last())
    }
}

/// The number of characters that the lines of all services take together.
pub open spec fn lines_length(services: Seq<ServiceView>) -> nat
    decreases services.len(),
{
    if services.len() == 0 {
        0
    } else {
        lines_length(services.drop_last()) + service_lines(services.last()).len()
    }
}

/// The whole script for a list of services.
pub open spec fn script_text(services: Seq<ServiceView>) -> Seq<char> {
    script_head() + script_body(services)
}

/// Writes the start-up script for the services of `services`, in their order.
pub fn generate_script(services: &ServiceFile) -> (script: String)
    ensures
        script@ == script_text(services@),
        services@.len() == 0 ==> script@ == script_head(),
{
    let mut script = String::new();
    script.append("#!/bin/bash\n\n");
    let mut i: usize = 0;
    while i < services.service.len()
        invariant
            i <= services.service@.len(),
            script@ == script_head() + script_body(services@.take(i as int)),
        decreases services.service@.len() - i,
    {
        let service = &services.service[i];
        script.append("# ");
        script.append(service.name.as_str());
        script.append("\n");
        script.append(service.command.as_str());
        script.append(" &\n");
        proof {
            let done = services@.take(i as int + 1);
            assert(done.drop_last() =~= services@.take(i as int));
            assert(done.last() == services@[i as int]);
            assert(script@ =~= script_head() + script_body(done));
        }
        i += 1;
    }
    proof {
        assert(services@.take(i as int) =~= services@);
        assert(script_text(Seq::<ServiceView>::empty()) =~= script_head());
    }
    script
}

/// A script for no services is the head alone: the interpreter line, one
/// blank line, and nothing after it.
pub proof fn script_of_no_services()
    ensures
        script_text(Seq::<ServiceView>::empty()) == script_head(),
{
    assert(script_text(Seq::<ServiceView>::empty()) =~= script_head());
}

/// Adding a service at the end adds its two lines at the end of the script and
/// leaves what stood before untouched.
pub proof fn script_of_one_more(services: Seq<ServiceView>, service: ServiceView)
    ensures
        script_text(services.push(service)) == script_text(services) + service_lines(service),
{
    assert(services.push(service).drop_last() =~= services);
    assert(script_text(services.push(service)) =~= script_text(services) + service_lines(service));
}

/// The lines of two lists laid end to end are the lines of the first followed
/// by the lines of the second: the script keeps the order of the services.
pub proof fn script_body_of_joined(first: Seq<ServiceView>, second: Seq<ServiceView>)
    ensures
        script_body(first + second) == script_body(first) + script_body(second),
    decreases second.len(),
{
    if second.len() == 0 {
        assert(first + second =~= first);
        assert(script_body(first) + script_body(second) =~= script_body(first));
    } else {
        script_body_of_joined(first, second.drop_last());
        assert((first + second).drop_last() =~= first + second.drop_last());
        assert((first + second).last() == second.last());
        assert(script_body(first + second) =~= script_body(first) + script_body(second));
    }
}

/// Every service has its two lines in the script exactly once and in its turn:
/// the lines of the service at `index` start where the script of the services
/// before it ends, and the script of the services up to and including it ends
/// where those lines end.
pub proof fn script_holds_each_service_in_turn(services: Seq<ServiceView>, index: int)
    requires
        0 <= index < services.len(),
    ensures
        script_text(services.take(index)).is_prefix_of(script_text(services)),
        script_text(services.take(index + 1)) == script_text(services.take(index)) + service_lines(
            services[index],
        ),
        script_text(services.take(index + 1)).is_prefix_of(script_text(services)),
{
    let before = services.take(index);
    let upto = services.take(index + 1);
    assert(upto =~= before.push(services[index]));
    script_of_one_more(before, services[index]);
    assert(services =~= before + services.skip(index));
    script_body_of_joined(before, services.skip(index));
    assert(script_text(services) =~= script_text(before) + script_body(services.skip(index)));
    assert(services =~= upto + services.skip(index + 1));
    script_body_of_joined(upto, services.skip(index + 1));
    assert(script_text(services) =~= script_text(upto) + script_body(services.skip(index + 1)));
}

/// The script is as long as its head and the lines of its services together:
/// nothing else is in it.
pub proof fn script_length(services: Seq<ServiceView>)
    ensures
        script_text(services).len() == script_head().len() + lines_length(services),
    decreases services.len(),
{
    if services.len() > 0 {
        script_length(services.drop_last());
    }
}

} // verus!
