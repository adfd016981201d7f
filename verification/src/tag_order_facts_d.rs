use vstd::prelude::*;

use crate::catalog::Classifier;
use crate::lexord::lex_lt;
use crate::lexord::lex_lt_from;
use crate::rank::classifier_of_rank;

verus! {

proof fn lex_adj_420()
    ensures
        lex_lt(Classifier::OperatingSystem__Microsoft__Windows__Windows3_1orEarlier.tag(), Classifier::OperatingSystem__Microsoft__Windows__Windows7.tag()),
{
    reveal_strlit("Operating System :: Microsoft :: Windows :: Windows 3.1 or Earlier");
    reveal_strlit("Operating System :: Microsoft :: Windows :: Windows 7");
    reveal_with_fuel(lex_lt_from, 54);
}

proof fn lex_adj_421()
    ensures
        lex_lt(Classifier::OperatingSystem__Microsoft__Windows__Windows7.tag(), Classifier::OperatingSystem__Microsoft__Windows__Windows8.tag()),
{
    reveal_strlit("Operating System :: Microsoft :: Windows :: Windows 7");
    reveal_strlit("Operating System :: Microsoft :: Windows :: Windows 8");
    reveal_with_fuel(lex_lt_from, 54);
}

proof fn lex_adj_422()
    ensures
        lex_lt(Classifier::OperatingSystem__Microsoft__Windows__Windows8.tag(), Classifier::OperatingSystem__Microsoft__Windows__Windows8_1.tag()),
{
    reveal_strlit("Operating System :: Microsoft :: Windows :: Windows 8");
    reveal_strlit("Operating System :: Microsoft :: Windows :: Windows 8.1");
    reveal_with_fuel(lex_lt_from, 55);
}

proof fn lex_adj_423()
    ensures
        lex_lt(Classifier::OperatingSystem__Microsoft__Windows__Windows8_1.tag(), Classifier::OperatingSystem__Microsoft__Windows__Windows95982000.tag()),
{
    reveal_strlit("Operating System :: Microsoft :: Windows :: Windows 8.1");
    reveal_strlit("Operating System :: Microsoft :: Windows :: Windows 95/98/2000");
    reveal_with_fuel(lex_lt_from, 54);
}

proof fn lex_adj_424()
    ensures
        lex_lt(Classifier::OperatingSystem__Microsoft__Windows__Windows95982000.tag(), Classifier::OperatingSystem__Microsoft__Windows__WindowsCE.tag()),
{
    reveal_strlit("Operating System :: Microsoft :: Windows :: Windows 95/98/2000");
    reveal_strlit("Operating System :: Microsoft :: Windows :: Windows CE");
    reveal_with_fuel(lex_lt_from, 54);
}

proof fn lex_adj_425()
    ensures
        lex_lt(Classifier::OperatingSystem__Microsoft__Windows__WindowsCE.tag(), Classifier::OperatingSystem__Microsoft__Windows__WindowsNT2000.tag()),
{
    reveal_strlit("Operating System :: Microsoft :: Windows :: Windows CE");
    reveal_strlit("Operating System :: Microsoft :: Windows :: Windows NT/2000");
    reveal_with_fuel(lex_lt_from, 54);
}

proof fn lex_adj_426()
    ensures
        lex_lt(Classifier::OperatingSystem__Microsoft__Windows__WindowsNT2000.tag(), Classifier::OperatingSystem__Microsoft__Windows__WindowsServer2003.tag()),
{
    reveal_strlit("Operating System :: Microsoft :: Windows :: Windows NT/2000");
    reveal_strlit("Operating System :: Microsoft :: Windows :: Windows Server 2003");
    reveal_with_fuel(lex_lt_from, 54);
}

proof fn lex_adj_427()
    ensures
        lex_lt(Classifier::OperatingSystem__Microsoft__Windows__WindowsServer2003.tag(), Classifier::OperatingSystem__Microsoft__Windows__WindowsServer2008.tag()),
{
    reveal_strlit("Operating System :: Microsoft :: Windows :: Windows Server 2003");
    reveal_strlit("Operating System :: Microsoft :: Windows :: Windows Server 2008");
    reveal_with_fuel(lex_lt_from, 64);
}

proof fn lex_adj_428()
    ensures
        lex_lt(Classifier::OperatingSystem__Microsoft__Windows__WindowsServer2008.tag(), Classifier::OperatingSystem__Microsoft__Windows__WindowsVista.tag()),
{
    reveal_strlit("Operating System :: Microsoft :: Windows :: Windows Server 2008");
    reveal_strlit("Operating System :: Microsoft :: Windows :: Windows Vista");
    reveal_with_fuel(lex_lt_from, 54);
}

proof fn lex_adj_429()
    ensures
        lex_lt(Classifier::OperatingSystem__Microsoft__Windows__WindowsVista.tag(), Classifier::OperatingSystem__Microsoft__Windows__WindowsXP.tag()),
{
    reveal_strlit("Operating System :: Microsoft :: Windows :: Windows Vista");
    reveal_strlit("Operating System :: Microsoft :: Windows :: Windows XP");
    reveal_with_fuel(lex_lt_from, 54);
}

proof fn lex_adj_430()
    ensures
        lex_lt(Classifier::OperatingSystem__Microsoft__Windows__WindowsXP.tag(), Classifier::OperatingSystem__OSIndependent.tag()),
{
    reveal_strlit("Operating System :: Microsoft :: Windows :: Windows XP");
    reveal_strlit("Operating System :: OS Independent");
    reveal_with_fuel(lex_lt_from, 22);
}

proof fn lex_adj_431()
    ensures
        lex_lt(Classifier::OperatingSystem__OSIndependent.tag(), Classifier::OperatingSystem__OS2.tag()),
{
    reveal_strlit("Operating System :: OS Independent");
    reveal_strlit("Operating System :: OS/2");
    reveal_with_fuel(lex_lt_from, 24);
}

proof fn lex_adj_432()
    ensures
        lex_lt(Classifier::OperatingSystem__OS2.tag(), Classifier::OperatingSystem__OtherOS.tag()),
{
    reveal_strlit("Operating System :: OS/2");
    reveal_strlit("Operating System :: Other OS");
    reveal_with_fuel(lex_lt_from, 23);
}

proof fn lex_adj_433()
    ensures
        lex_lt(Classifier::OperatingSystem__OtherOS.tag(), Classifier::OperatingSystem__PDASystems.tag()),
{
    reveal_strlit("Operating System :: Other OS");
    reveal_strlit("Operating System :: PDA Systems");
    reveal_with_fuel(lex_lt_from, 22);
}

proof fn lex_adj_434()
    ensures
        lex_lt(Classifier::OperatingSystem__PDASystems.tag(), Classifier::OperatingSystem__POSIX.tag()),
{
    reveal_strlit("Operating System :: PDA Systems");
    reveal_strlit("Operating System :: POSIX");
    reveal_with_fuel(lex_lt_from, 23);
}

proof fn lex_adj_435()
    ensures
        lex_lt(Classifier::OperatingSystem__POSIX.tag(), Classifier::OperatingSystem__POSIX__AIX.tag()),
{
    reveal_strlit("Operating System :: POSIX");
    reveal_strlit("Operating System :: POSIX :: AIX");
    reveal_with_fuel(lex_lt_from, 27);
}

proof fn lex_adj_436()
    ensures
        lex_lt(Classifier::OperatingSystem__POSIX__AIX.tag(), Classifier::OperatingSystem__POSIX__BSD.tag()),
{
    reveal_strlit("Operating System :: POSIX :: AIX");
    reveal_strlit("Operating System :: POSIX :: BSD");
    reveal_with_fuel(lex_lt_from, 31);
}

proof fn lex_adj_437()
    ensures
        lex_lt(Classifier::OperatingSystem__POSIX__BSD.tag(), Classifier::OperatingSystem__POSIX__BSD__BSDOS.tag()),
{
    reveal_strlit("Operating System :: POSIX :: BSD");
    reveal_strlit("Operating System :: POSIX :: BSD :: BSD/OS");
    reveal_with_fuel(lex_lt_from, 34);
}

proof fn lex_adj_438()
    ensures
        lex_lt(Classifier::OperatingSystem__POSIX__BSD__BSDOS.tag(), Classifier::OperatingSystem__POSIX__BSD__FreeBSD.tag()),
{
    reveal_strlit("Operating System :: POSIX :: BSD :: BSD/OS");
    reveal_strlit("Operating System :: POSIX :: BSD :: FreeBSD");
    reveal_with_fuel(lex_lt_from, 38);
}

proof fn lex_adj_439()
    ensures
        lex_lt(Classifier::OperatingSystem__POSIX__BSD__FreeBSD.tag(), Classifier::OperatingSystem__POSIX__BSD__NetBSD.tag()),
{
    reveal_strlit("Operating System :: POSIX :: BSD :: FreeBSD");
    reveal_strlit("Operating System :: POSIX :: BSD :: NetBSD");
    reveal_with_fuel(lex_lt_from, 38);
}

proof fn lex_adj_440()
    ensures
        lex_lt(Classifier::OperatingSystem__POSIX__BSD__NetBSD.tag(), Classifier::OperatingSystem__POSIX__BSD__OpenBSD.tag()),
{
    reveal_strlit("Operating System :: POSIX :: BSD :: NetBSD");
    reveal_strlit("Operating System :: POSIX :: BSD :: OpenBSD");
    reveal_with_fuel(lex_lt_from, 38);
}

proof fn lex_adj_441()
    ensures
        lex_lt(Classifier::OperatingSystem__POSIX__BSD__OpenBSD.tag(), Classifier::OperatingSystem__POSIX__GNUHurd.tag()),
{
    reveal_strlit("Operating System :: POSIX :: BSD :: OpenBSD");
    reveal_strlit("Operating System :: POSIX :: GNU Hurd");
    reveal_with_fuel(lex_lt_from, 31);
}

proof fn lex_adj_442()
    ensures
        lex_lt(Classifier::OperatingSystem__POSIX__GNUHurd.tag(), Classifier::OperatingSystem__POSIX__HPUX.tag()),
{
    reveal_strlit("Operating System :: POSIX :: GNU Hurd");
    reveal_strlit("Operating System :: POSIX :: HP-UX");
    reveal_with_fuel(lex_lt_from, 31);
}

proof fn lex_adj_443()
    ensures
        lex_lt(Classifier::OperatingSystem__POSIX__HPUX.tag(), Classifier::OperatingSystem__POSIX__IRIX.tag()),
{
    reveal_strlit("Operating System :: POSIX :: HP-UX");
    reveal_strlit("Operating System :: POSIX :: IRIX");
    reveal_with_fuel(lex_lt_from, 31);
}

proof fn lex_adj_444()
    ensures
        lex_lt(Classifier::OperatingSystem__POSIX__IRIX.tag(), Classifier::OperatingSystem__POSIX__Linux.tag()),
{
    reveal_strlit("Operating System :: POSIX :: IRIX");
    reveal_strlit("Operating System :: POSIX :: Linux");
    reveal_with_fuel(lex_lt_from, 31);
}

proof fn lex_adj_445()
    ensures
        lex_lt(Classifier::OperatingSystem__POSIX__Linux.tag(), Classifier::OperatingSystem__POSIX__Other.tag()),
{
    reveal_strlit("Operating System :: POSIX :: Linux");
    reveal_strlit("Operating System :: POSIX :: Other");
    reveal_with_fuel(lex_lt_from, 31);
}

proof fn lex_adj_446()
    ensures
        lex_lt(Classifier::OperatingSystem__POSIX__Other.tag(), Classifier::OperatingSystem__POSIX__SCO.tag()),
{
    reveal_strlit("Operating System :: POSIX :: Other");
    reveal_strlit("Operating System :: POSIX :: SCO");
    reveal_with_fuel(lex_lt_from, 31);
}

proof fn lex_adj_447()
    ensures
        lex_lt(Classifier::OperatingSystem__POSIX__SCO.tag(), Classifier::OperatingSystem__POSIX__SunOSSolaris.tag()),
{
    reveal_strlit("Operating System :: POSIX :: SCO");
    reveal_strlit("Operating System :: POSIX :: SunOS/Solaris");
    reveal_with_fuel(lex_lt_from, 32);
}

proof fn lex_adj_448()
    ensures
        lex_lt(Classifier::OperatingSystem__POSIX__SunOSSolaris.tag(), Classifier::OperatingSystem__PalmOS.tag()),
{
    reveal_strlit("Operating System :: POSIX :: SunOS/Solaris");
    reveal_strlit("Operating System :: PalmOS");
    reveal_with_fuel(lex_lt_from, 23);
}

proof fn lex_adj_449()
    ensures
        lex_lt(Classifier::OperatingSystem__PalmOS.tag(), Classifier::OperatingSystem__RISCOS.tag()),
{
    reveal_strlit("Operating System :: PalmOS");
    reveal_strlit("Operating System :: RISC OS");
    reveal_with_fuel(lex_lt_from, 22);
}

proof fn lex_adj_450()
    ensures
        lex_lt(Classifier::OperatingSystem__RISCOS.tag(), Classifier::OperatingSystem__Unix.tag()),
{
    reveal_strlit("Operating System :: RISC OS");
    reveal_strlit("Operating System :: Unix");
    reveal_with_fuel(lex_lt_from, 22);
}

proof fn lex_adj_451()
    ensures
        lex_lt(Classifier::OperatingSystem__Unix.tag(), Classifier::OperatingSystem__iOS.tag()),
{
    reveal_strlit("Operating System :: Unix");
    reveal_strlit("Operating System :: iOS");
    reveal_with_fuel(lex_lt_from, 22);
}

proof fn lex_adj_452()
    ensures
        lex_lt(Classifier::OperatingSystem__iOS.tag(), Classifier::ProgrammingLanguage__APL.tag()),
{
    reveal_strlit("Operating System :: iOS");
    reveal_strlit("Programming Language :: APL");
    reveal_with_fuel(lex_lt_from, 2);
}

proof fn lex_adj_453()
    ensures
        lex_lt(Classifier::ProgrammingLanguage__APL.tag(), Classifier::ProgrammingLanguage__ASP.tag()),
{
    reveal_strlit("Programming Language :: APL");
    reveal_strlit("Programming Language :: ASP");
    reveal_with_fuel(lex_lt_from, 27);
}

proof fn lex_adj_454()
    ensures
        lex_lt(Classifier::ProgrammingLanguage__ASP.tag(), Classifier::ProgrammingLanguage__Ada.tag()),
{
    reveal_strlit("Programming Language :: ASP");
    reveal_strlit("Programming Language :: Ada");
    reveal_with_fuel(lex_lt_from, 27);
}

proof fn lex_adj_455()
    ensures
        lex_lt(Classifier::ProgrammingLanguage__Ada.tag(), Classifier::ProgrammingLanguage__Assembly.tag()),
{
    reveal_strlit("Programming Language :: Ada");
    reveal_strlit("Programming Language :: Assembly");
    reveal_with_fuel(lex_lt_from, 27);
}

proof fn lex_adj_456()
    ensures
        lex_lt(Classifier::ProgrammingLanguage__Assembly.tag(), Classifier::ProgrammingLanguage__Awk.tag()),
{
    reveal_strlit("Programming Language :: Assembly");
    reveal_strlit("Programming Language :: Awk");
    reveal_with_fuel(lex_lt_from, 27);
}

proof fn lex_adj_457()
    ensures
        lex_lt(Classifier::ProgrammingLanguage__Awk.tag(), Classifier::ProgrammingLanguage__Basic.tag()),
{
    reveal_strlit("Programming Language :: Awk");
    reveal_strlit("Programming Language :: Basic");
    reveal_with_fuel(lex_lt_from, 26);
}

proof fn lex_adj_458()
    ensures
        lex_lt(Classifier::ProgrammingLanguage__Basic.tag(), Classifier::ProgrammingLanguage__C.tag()),
{
    reveal_strlit("Programming Language :: Basic");
    reveal_strlit("Programming Language :: C");
    reveal_with_fuel(lex_lt_from, 26);
}

proof fn lex_adj_459()
    ensures
        lex_lt(Classifier::ProgrammingLanguage__C.tag(), Classifier::ProgrammingLanguage__Csharp.tag()),
{
    reveal_strlit("Programming Language :: C");
    reveal_strlit("Programming Language :: C#");
    reveal_with_fuel(lex_lt_from, 27);
}

proof fn lex_adj_460()
    ensures
        lex_lt(Classifier::ProgrammingLanguage__Csharp.tag(), Classifier::ProgrammingLanguage__Cplusplus.tag()),
{
    reveal_strlit("Programming Language :: C#");
    reveal_strlit("Programming Language :: C++");
    reveal_with_fuel(lex_lt_from, 27);
}

proof fn lex_adj_461()
    ensures
        lex_lt(Classifier::ProgrammingLanguage__Cplusplus.tag(), Classifier::ProgrammingLanguage__ColdFusion.tag()),
{
    reveal_strlit("Programming Language :: C++");
    reveal_strlit("Programming Language :: Cold Fusion");
    reveal_with_fuel(lex_lt_from, 27);
}

proof fn lex_adj_462()
    ensures
        lex_lt(Classifier::ProgrammingLanguage__ColdFusion.tag(), Classifier::ProgrammingLanguage__Cython.tag()),
{
    reveal_strlit("Programming Language :: Cold Fusion");
    reveal_strlit("Programming Language :: Cython");
    reveal_with_fuel(lex_lt_from, 27);
}

proof fn lex_adj_463()
    ensures
        lex_lt(Classifier::ProgrammingLanguage__Cython.tag(), Classifier::ProgrammingLanguage__D.tag()),
{
    reveal_strlit("Programming Language :: Cython");
    reveal_strlit("Programming Language :: D");
    reveal_with_fuel(lex_lt_from, 26);
}

proof fn lex_adj_464()
    ensures
        lex_lt(Classifier::ProgrammingLanguage__D.tag(), Classifier::ProgrammingLanguage__DelphiKylix.tag()),
{
    reveal_strlit("Programming Language :: D");
    reveal_strlit("Programming Language :: Delphi/Kylix");
    reveal_with_fuel(lex_lt_from, 27);
}

proof fn lex_adj_465()
    ensures
        lex_lt(Classifier::ProgrammingLanguage__DelphiKylix.tag(), Classifier::ProgrammingLanguage__Dylan.tag()),
{
    reveal_strlit("Programming Language :: Delphi/Kylix");
    reveal_strlit("Programming Language :: Dylan");
    reveal_with_fuel(lex_lt_from, 27);
}

proof fn lex_adj_466()
    ensures
        lex_lt(Classifier::ProgrammingLanguage__Dylan.tag(), Classifier::ProgrammingLanguage__Eiffel.tag()),
{
    reveal_strlit("Programming Language :: Dylan");
    reveal_strlit("Programming Language :: Eiffel");
    reveal_with_fuel(lex_lt_from, 26);
}

proof fn lex_adj_467()
    ensures
        lex_lt(Classifier::ProgrammingLanguage__Eiffel.tag(), Classifier::ProgrammingLanguage__EmacsLisp.tag()),
{
    reveal_strlit("Programming Language :: Eiffel");
    reveal_strlit("Programming Language :: Emacs-Lisp");
    reveal_with_fuel(lex_lt_from, 27);
}

proof fn lex_adj_468()
    ensures
        lex_lt(Classifier::ProgrammingLanguage__EmacsLisp.tag(), Classifier::ProgrammingLanguage__Erlang.tag()),
{
    reveal_strlit("Programming Language :: Emacs-Lisp");
    reveal_strlit("Programming Language :: Erlang");
    reveal_with_fuel(lex_lt_from, 27);
}

proof fn lex_adj_469()
    ensures
        lex_lt(Classifier::ProgrammingLanguage__Erlang.tag(), Classifier::ProgrammingLanguage__Euler.tag()),
{
    reveal_strlit("Programming Language :: Erlang");
    reveal_strlit("Programming Language :: Euler");
    reveal_with_fuel(lex_lt_from, 27);
}

proof fn lex_adj_470()
    ensures
        lex_lt(Classifier::ProgrammingLanguage__Euler.tag(), Classifier::ProgrammingLanguage__Euphoria.tag()),
{
    reveal_strlit("Programming Language :: Euler");
    reveal_strlit("Programming Language :: Euphoria");
    reveal_with_fuel(lex_lt_from, 28);
}

proof fn lex_adj_471()
    ensures
        lex_lt(Classifier::ProgrammingLanguage__Euphoria.tag(), Classifier::ProgrammingLanguage__Fsharp.tag()),
{
    reveal_strlit("Programming Language :: Euphoria");
    reveal_strlit("Programming Language :: F#");
    reveal_with_fuel(lex_lt_from, 26);
}

proof fn lex_adj_472()
    ensures
        lex_lt(Classifier::ProgrammingLanguage__Fsharp.tag(), Classifier::ProgrammingLanguage__Forth.tag()),
{
    reveal_strlit("Programming Language :: F#");
    reveal_strlit("Programming Language :: Forth");
    reveal_with_fuel(lex_lt_from, 27);
}

proof fn lex_adj_473()
    ensures
        lex_lt(Classifier::ProgrammingLanguage__Forth.tag(), Classifier::ProgrammingLanguage__Fortran.tag()),
{
    reveal_strlit("Programming Language :: Forth");
    reveal_strlit("Programming Language :: Fortran");
    reveal_with_fuel(lex_lt_from, 30);
}

proof fn lex_adj_474()
    ensures
        lex_lt(Classifier::ProgrammingLanguage__Fortran.tag(), Classifier::ProgrammingLanguage__Go.tag()),
{
    reveal_strlit("Programming Language :: Fortran");
    reveal_strlit("Programming Language :: Go");
    reveal_with_fuel(lex_lt_from, 26);
}

proof fn lex_adj_475()
    ensures
        lex_lt(Classifier::ProgrammingLanguage__Go.tag(), Classifier::ProgrammingLanguage__Haskell.tag()),
{
    reveal_strlit("Programming Language :: Go");
    reveal_strlit("Programming Language :: Haskell");
    reveal_with_fuel(lex_lt_from, 26);
}

proof fn lex_adj_476()
    ensures
        lex_lt(Classifier::ProgrammingLanguage__Haskell.tag(), Classifier::ProgrammingLanguage__Hy.tag()),
{
    reveal_strlit("Programming Language :: Haskell");
    reveal_strlit("Programming Language :: Hy");
    reveal_with_fuel(lex_lt_from, 27);
}

proof fn lex_adj_477()
    ensures
        lex_lt(Classifier::ProgrammingLanguage__Hy.tag(), Classifier::ProgrammingLanguage__Java.tag()),
{
    reveal_strlit("Programming Language :: Hy");
    reveal_strlit("Programming Language :: Java");
    reveal_with_fuel(lex_lt_from, 26);
}

proof fn lex_adj_478()
    ensures
        lex_lt(Classifier::ProgrammingLanguage__Java.tag(), Classifier::ProgrammingLanguage__JavaScript.tag()),
{
    reveal_strlit("Programming Language :: Java");
    reveal_strlit("Programming Language :: JavaScript");
    reveal_with_fuel(lex_lt_from, 30);
}

proof fn lex_adj_479()
    ensures
        lex_lt(Classifier::ProgrammingLanguage__JavaScript.tag(), Classifier::ProgrammingLanguage__Kotlin.tag()),
{
    reveal_strlit("Programming Language :: JavaScript");
    reveal_strlit("Programming Language :: Kotlin");
    reveal_with_fuel(lex_lt_from, 26);
}

proof fn lex_adj_480()
    ensures
        lex_lt(Classifier::ProgrammingLanguage__Kotlin.tag(), Classifier::ProgrammingLanguage__Lisp.tag()),
{
    reveal_strlit("Programming Language :: Kotlin");
    reveal_strlit("Programming Language :: Lisp");
    reveal_with_fuel(lex_lt_from, 26);
}

proof fn lex_adj_481()
    ensures
        lex_lt(Classifier::ProgrammingLanguage__Lisp.tag(), Classifier::ProgrammingLanguage__Logo.tag()),
{
    reveal_strlit("Programming Language :: Lisp");
    reveal_strlit("Programming Language :: Logo");
    reveal_with_fuel(lex_lt_from, 27);
}

proof fn lex_adj_482()
    ensures
        lex_lt(Classifier::ProgrammingLanguage__Logo.tag(), Classifier::ProgrammingLanguage__Lua.tag()),
{
    reveal_strlit("Programming Language :: Logo");
    reveal_strlit("Programming Language :: Lua");
    reveal_with_fuel(lex_lt_from, 27);
}

proof fn lex_adj_483()
    ensures
        lex_lt(Classifier::ProgrammingLanguage__Lua.tag(), Classifier::ProgrammingLanguage__ML.tag()),
{
    reveal_strlit("Programming Language :: Lua");
    reveal_strlit("Programming Language :: ML");
    reveal_with_fuel(lex_lt_from, 26);
}

proof fn lex_adj_484()
    ensures
        lex_lt(Classifier::ProgrammingLanguage__ML.tag(), Classifier::ProgrammingLanguage__Modula.tag()),
{
    reveal_strlit("Programming Language :: ML");
    reveal_strlit("Programming Language :: Modula");
    reveal_with_fuel(lex_lt_from, 27);
}

proof fn lex_adj_485()
    ensures
        lex_lt(Classifier::ProgrammingLanguage__Modula.tag(), Classifier::ProgrammingLanguage__OCaml.tag()),
{
    reveal_strlit("Programming Language :: Modula");
    reveal_strlit("Programming Language :: OCaml");
    reveal_with_fuel(lex_lt_from, 26);
}

proof fn lex_adj_486()
    ensures
        lex_lt(Classifier::ProgrammingLanguage__OCaml.tag(), Classifier::ProgrammingLanguage__ObjectPascal.tag()),
{
    reveal_strlit("Programming Language :: OCaml");
    reveal_strlit("Programming Language :: Object Pascal");
    reveal_with_fuel(lex_lt_from, 27);
}

proof fn lex_adj_487()
    ensures
        lex_lt(Classifier::ProgrammingLanguage__ObjectPascal.tag(), Classifier::ProgrammingLanguage__ObjectiveC.tag()),
{
    reveal_strlit("Programming Language :: Object Pascal");
    reveal_strlit("Programming Language :: Objective C");
    reveal_with_fuel(lex_lt_from, 32);
}

proof fn lex_adj_488()
    ensures
        lex_lt(Classifier::ProgrammingLanguage__ObjectiveC.tag(), Classifier::ProgrammingLanguage__Other.tag()),
{
    reveal_strlit("Programming Language :: Objective C");
    reveal_strlit("Programming Language :: Other");
    reveal_with_fuel(lex_lt_from, 27);
}

proof fn lex_adj_489()
    ensures
        lex_lt(Classifier::ProgrammingLanguage__Other.tag(), Classifier::ProgrammingLanguage__OtherScriptingEngines.tag()),
{
    reveal_strlit("Programming Language :: Other");
    reveal_strlit("Programming Language :: Other Scripting Engines");
    reveal_with_fuel(lex_lt_from, 31);
}

proof fn lex_adj_490()
    ensures
        lex_lt(Classifier::ProgrammingLanguage__OtherScriptingEngines.tag(), Classifier::ProgrammingLanguage__PHP.tag()),
{
    reveal_strlit("Programming Language :: Other Scripting Engines");
    reveal_strlit("Programming Language :: PHP");
    reveal_with_fuel(lex_lt_from, 26);
}

proof fn lex_adj_491()
    ensures
        lex_lt(Classifier::ProgrammingLanguage__PHP.tag(), Classifier::ProgrammingLanguage__PLSQL.tag()),
{
    reveal_strlit("Programming Language :: PHP");
    reveal_strlit("Programming Language :: PL/SQL");
    reveal_with_fuel(lex_lt_from, 27);
}

proof fn lex_adj_492()
    ensures
        lex_lt(Classifier::ProgrammingLanguage__PLSQL.tag(), Classifier::ProgrammingLanguage__PROGRESS.tag()),
{
    reveal_strlit("Programming Language :: PL/SQL");
    reveal_strlit("Programming Language :: PROGRESS");
    reveal_with_fuel(lex_lt_from, 27);
}

proof fn lex_adj_493()
    ensures
        lex_lt(Classifier::ProgrammingLanguage__PROGRESS.tag(), Classifier::ProgrammingLanguage__Pascal.tag()),
{
    reveal_strlit("Programming Language :: PROGRESS");
    reveal_strlit("Programming Language :: Pascal");
    reveal_with_fuel(lex_lt_from, 27);
}

proof fn lex_adj_494()
    ensures
        lex_lt(Classifier::ProgrammingLanguage__Pascal.tag(), Classifier::ProgrammingLanguage__Perl.tag()),
{
    reveal_strlit("Programming Language :: Pascal");
    reveal_strlit("Programming Language :: Perl");
    reveal_with_fuel(lex_lt_from, 27);
}

proof fn lex_adj_495()
    ensures
        lex_lt(Classifier::ProgrammingLanguage__Perl.tag(), Classifier::ProgrammingLanguage__Pike.tag()),
{
    reveal_strlit("Programming Language :: Perl");
    reveal_strlit("Programming Language :: Pike");
    reveal_with_fuel(lex_lt_from, 27);
}

proof fn lex_adj_496()
    ensures
        lex_lt(Classifier::ProgrammingLanguage__Pike.tag(), Classifier::ProgrammingLanguage__Pliant.tag()),
{
    reveal_strlit("Programming Language :: Pike");
    reveal_strlit("Programming Language :: Pliant");
    reveal_with_fuel(lex_lt_from, 27);
}

proof fn lex_adj_497()
    ensures
        lex_lt(Classifier::ProgrammingLanguage__Pliant.tag(), Classifier::ProgrammingLanguage__Prolog.tag()),
{
    reveal_strlit("Programming Language :: Pliant");
    reveal_strlit("Programming Language :: Prolog");
    reveal_with_fuel(lex_lt_from, 27);
}

proof fn lex_adj_498()
    ensures
        lex_lt(Classifier::ProgrammingLanguage__Prolog.tag(), Classifier::ProgrammingLanguage__Python.tag()),
{
    reveal_strlit("Programming Language :: Prolog");
    reveal_strlit("Programming Language :: Python");
    reveal_with_fuel(lex_lt_from, 27);
}

proof fn lex_adj_499()
    ensures
        lex_lt(Classifier::ProgrammingLanguage__Python.tag(), Classifier::ProgrammingLanguage__Python__2.tag()),
{
    reveal_strlit("Programming Language :: Python");
    reveal_strlit("Programming Language :: Python :: 2");
    reveal_with_fuel(lex_lt_from, 32);
}

proof fn lex_adj_500()
    ensures
        lex_lt(Classifier::ProgrammingLanguage__Python__2.tag(), Classifier::ProgrammingLanguage__Python__2__Only.tag()),
{
    reveal_strlit("Programming Language :: Python :: 2");
    reveal_strlit("Programming Language :: Python :: 2 :: Only");
    reveal_with_fuel(lex_lt_from, 37);
}

proof fn lex_adj_501()
    ensures
        lex_lt(Classifier::ProgrammingLanguage__Python__2__Only.tag(), Classifier::ProgrammingLanguage__Python__2_3.tag()),
{
    reveal_strlit("Programming Language :: Python :: 2 :: Only");
    reveal_strlit("Programming Language :: Python :: 2.3");
    reveal_with_fuel(lex_lt_from, 37);
}

proof fn lex_adj_502()
    ensures
        lex_lt(Classifier::ProgrammingLanguage__Python__2_3.tag(), Classifier::ProgrammingLanguage__Python__2_4.tag()),
{
    reveal_strlit("Programming Language :: Python :: 2.3");
    reveal_strlit("Programming Language :: Python :: 2.4");
    reveal_with_fuel(lex_lt_from, 38);
}

proof fn lex_adj_503()
    ensures
        lex_lt(Classifier::ProgrammingLanguage__Python__2_4.tag(), Classifier::ProgrammingLanguage__Python__2_5.tag()),
{
    reveal_strlit("Programming Language :: Python :: 2.4");
    reveal_strlit("Programming Language :: Python :: 2.5");
    reveal_with_fuel(lex_lt_from, 38);
}

proof fn lex_adj_504()
    ensures
        lex_lt(Classifier::ProgrammingLanguage__Python__2_5.tag(), Classifier::ProgrammingLanguage__Python__2_6.tag()),
{
    reveal_strlit("Programming Language :: Python :: 2.5");
    reveal_strlit("Programming Language :: Python :: 2.6");
    reveal_with_fuel(lex_lt_from, 38);
}

proof fn lex_adj_505()
    ensures
        lex_lt(Classifier::ProgrammingLanguage__Python__2_6.tag(), Classifier::ProgrammingLanguage__Python__2_7.tag()),
{
    reveal_strlit("Programming Language :: Python :: 2.6");
    reveal_strlit("Programming Language :: Python :: 2.7");
    reveal_with_fuel(lex_lt_from, 38);
}

proof fn lex_adj_506()
    ensures
        lex_lt(Classifier::ProgrammingLanguage__Python__2_7.tag(), Classifier::ProgrammingLanguage__Python__3.tag()),
{
    reveal_strlit("Programming Language :: Python :: 2.7");
    reveal_strlit("Programming Language :: Python :: 3");
    reveal_with_fuel(lex_lt_from, 36);
}

proof fn lex_adj_507()
    ensures
        lex_lt(Classifier::ProgrammingLanguage__Python__3.tag(), Classifier::ProgrammingLanguage__Python__3__Only.tag()),
{
    reveal_strlit("Programming Language :: Python :: 3");
    reveal_strlit("Programming Language :: Python :: 3 :: Only");
    reveal_with_fuel(lex_lt_from, 37);
}

proof fn lex_adj_508()
    ensures
        lex_lt(Classifier::ProgrammingLanguage__Python__3__Only.tag(), Classifier::ProgrammingLanguage__Python__3_0.tag()),
{
    reveal_strlit("Programming Language :: Python :: 3 :: Only");
    reveal_strlit("Programming Language :: Python :: 3.0");
    reveal_with_fuel(lex_lt_from, 37);
}

proof fn lex_adj_509()
    ensures
        lex_lt(Classifier::ProgrammingLanguage__Python__3_0.tag(), Classifier::ProgrammingLanguage__Python__3_1.tag()),
{
    reveal_strlit("Programming Language :: Python :: 3.0");
    reveal_strlit("Programming Language :: Python :: 3.1");
    reveal_with_fuel(lex_lt_from, 38);
}

proof fn lex_adj_510()
    ensures
        lex_lt(Classifier::ProgrammingLanguage__Python__3_1.tag(), Classifier::ProgrammingLanguage__Python__3_10.tag()),
{
    reveal_strlit("Programming Language :: Python :: 3.1");
    reveal_strlit("Programming Language :: Python :: 3.10");
    reveal_with_fuel(lex_lt_from, 39);
}

proof fn lex_adj_511()
    ensures
        lex_lt(Classifier::ProgrammingLanguage__Python__3_10.tag(), Classifier::ProgrammingLanguage__Python__3_11.tag()),
{
    reveal_strlit("Programming Language :: Python :: 3.10");
    reveal_strlit("Programming Language :: Python :: 3.11");
    reveal_with_fuel(lex_lt_from, 39);
}

proof fn lex_adj_512()
    ensures
        lex_lt(Classifier::ProgrammingLanguage__Python__3_11.tag(), Classifier::ProgrammingLanguage__Python__3_12.tag()),
{
    reveal_strlit("Programming Language :: Python :: 3.11");
    reveal_strlit("Programming Language :: Python :: 3.12");
    reveal_with_fuel(lex_lt_from, 39);
}

proof fn lex_adj_513()
    ensures
        lex_lt(Classifier::ProgrammingLanguage__Python__3_12.tag(), Classifier::ProgrammingLanguage__Python__3_13.tag()),
{
    reveal_strlit("Programming Language :: Python :: 3.12");
    reveal_strlit("Programming Language :: Python :: 3.13");
    reveal_with_fuel(lex_lt_from, 39);
}

proof fn lex_adj_514()
    ensures
        lex_lt(Classifier::ProgrammingLanguage__Python__3_13.tag(), Classifier::ProgrammingLanguage__Python__3_14.tag()),
{
    reveal_strlit("Programming Language :: Python :: 3.13");
    reveal_strlit("Programming Language :: Python :: 3.14");
    reveal_with_fuel(lex_lt_from, 39);
}

proof fn lex_adj_515()
    ensures
        lex_lt(Classifier::ProgrammingLanguage__Python__3_14.tag(), Classifier::ProgrammingLanguage__Python__3_2.tag()),
{
    reveal_strlit("Programming Language :: Python :: 3.14");
    reveal_strlit("Programming Language :: Python :: 3.2");
    reveal_with_fuel(lex_lt_from, 38);
}

proof fn lex_adj_516()
    ensures
        lex_lt(Classifier::ProgrammingLanguage__Python__3_2.tag(), Classifier::ProgrammingLanguage__Python__3_3.tag()),
{
    reveal_strlit("Programming Language :: Python :: 3.2");
    reveal_strlit("Programming Language :: Python :: 3.3");
    reveal_with_fuel(lex_lt_from, 38);
}

proof fn lex_adj_517()
    ensures
        lex_lt(Classifier::ProgrammingLanguage__Python__3_3.tag(), Classifier::ProgrammingLanguage__Python__3_4.tag()),
{
    reveal_strlit("Programming Language :: Python :: 3.3");
    reveal_strlit("Programming Language :: Python :: 3.4");
    reveal_with_fuel(lex_lt_from, 38);
}

proof fn lex_adj_518()
    ensures
        lex_lt(Classifier::ProgrammingLanguage__Python__3_4.tag(), Classifier::ProgrammingLanguage__Python__3_5.tag()),
{
    reveal_strlit("Programming Language :: Python :: 3.4");
    reveal_strlit("Programming Language :: Python :: 3.5");
    reveal_with_fuel(lex_lt_from, 38);
}

proof fn lex_adj_519()
    ensures
        lex_lt(Classifier::ProgrammingLanguage__Python__3_5.tag(), Classifier::ProgrammingLanguage__Python__3_6.tag()),
{
    reveal_strlit("Programming Language :: Python :: 3.5");
    reveal_strlit("Programming Language :: Python :: 3.6");
    reveal_with_fuel(lex_lt_from, 38);
}

proof fn lex_adj_520()
    ensures
        lex_lt(Classifier::ProgrammingLanguage__Python__3_6.tag(), Classifier::ProgrammingLanguage__Python__3_7.tag()),
{
    reveal_strlit("Programming Language :: Python :: 3.6");
    reveal_strlit("Programming Language :: Python :: 3.7");
    reveal_with_fuel(lex_lt_from, 38);
}

proof fn lex_adj_521()
    ensures
        lex_lt(Classifier::ProgrammingLanguage__Python__3_7.tag(), Classifier::ProgrammingLanguage__Python__3_8.tag()),
{
    reveal_strlit("Programming Language :: Python :: 3.7");
    reveal_strlit("Programming Language :: Python :: 3.8");
    reveal_with_fuel(lex_lt_from, 38);
}

proof fn lex_adj_522()
    ensures
        lex_lt(Classifier::ProgrammingLanguage__Python__3_8.tag(), Classifier::ProgrammingLanguage__Python__3_9.tag()),
{
    reveal_strlit("Programming Language :: Python :: 3.8");
    reveal_strlit("Programming Language :: Python :: 3.9");
    reveal_with_fuel(lex_lt_from, 38);
}

proof fn lex_adj_523()
    ensures
        lex_lt(Classifier::ProgrammingLanguage__Python__3_9.tag(), Classifier::ProgrammingLanguage__Python__Implementation.tag()),
{
    reveal_strlit("Programming Language :: Python :: 3.9");
    reveal_strlit("Programming Language :: Python :: Implementation");
    reveal_with_fuel(lex_lt_from, 36);
}

proof fn lex_adj_524()
    ensures
        lex_lt(Classifier::ProgrammingLanguage__Python__Implementation.tag(), Classifier::ProgrammingLanguage__Python__Implementation__CPython.tag()),
{
    reveal_strlit("Programming Language :: Python :: Implementation");
    reveal_strlit("Programming Language :: Python :: Implementation :: CPython");
    reveal_with_fuel(lex_lt_from, 50);
}

proof fn lex_adj_525()
    ensures
        lex_lt(Classifier::ProgrammingLanguage__Python__Implementation__CPython.tag(), Classifier::ProgrammingLanguage__Python__Implementation__IronPython.tag()),
{
    reveal_strlit("Programming Language :: Python :: Implementation :: CPython");
    reveal_strlit("Programming Language :: Python :: Implementation :: IronPython");
    reveal_with_fuel(lex_lt_from, 54);
}

proof fn lex_adj_526()
    ensures
        lex_lt(Classifier::ProgrammingLanguage__Python__Implementation__IronPython.tag(), Classifier::ProgrammingLanguage__Python__Implementation__Jython.tag()),
{
    reveal_strlit("Programming Language :: Python :: Implementation :: IronPython");
    reveal_strlit("Programming Language :: Python :: Implementation :: Jython");
    reveal_with_fuel(lex_lt_from, 54);
}

proof fn lex_adj_527()
    ensures
        lex_lt(Classifier::ProgrammingLanguage__Python__Implementation__Jython.tag(), Classifier::ProgrammingLanguage__Python__Implementation__MicroPython.tag()),
{
    reveal_strlit("Programming Language :: Python :: Implementation :: Jython");
    reveal_strlit("Programming Language :: Python :: Implementation :: MicroPython");
    reveal_with_fuel(lex_lt_from, 54);
}

proof fn lex_adj_528()
    ensures
        lex_lt(Classifier::ProgrammingLanguage__Python__Implementation__MicroPython.tag(), Classifier::ProgrammingLanguage__Python__Implementation__PyPy.tag()),
{
    reveal_strlit("Programming Language :: Python :: Implementation :: MicroPython");
    reveal_strlit("Programming Language :: Python :: Implementation :: PyPy");
    reveal_with_fuel(lex_lt_from, 54);
}

proof fn lex_adj_529()
    ensures
        lex_lt(Classifier::ProgrammingLanguage__Python__Implementation__PyPy.tag(), Classifier::ProgrammingLanguage__Python__Implementation__Stackless.tag()),
{
    reveal_strlit("Programming Language :: Python :: Implementation :: PyPy");
    reveal_strlit("Programming Language :: Python :: Implementation :: Stackless");
    reveal_with_fuel(lex_lt_from, 54);
}

proof fn lex_adj_530()
    ensures
        lex_lt(Classifier::ProgrammingLanguage__Python__Implementation__Stackless.tag(), Classifier::ProgrammingLanguage__R.tag()),
{
    reveal_strlit("Programming Language :: Python :: Implementation :: Stackless");
    reveal_strlit("Programming Language :: R");
    reveal_with_fuel(lex_lt_from, 26);
}

proof fn lex_adj_531()
    ensures
        lex_lt(Classifier::ProgrammingLanguage__R.tag(), Classifier::ProgrammingLanguage__REBOL.tag()),
{
    reveal_strlit("Programming Language :: R");
    reveal_strlit("Programming Language :: REBOL");
    reveal_with_fuel(lex_lt_from, 27);
}

proof fn lex_adj_532()
    ensures
        lex_lt(Classifier::ProgrammingLanguage__REBOL.tag(), Classifier::ProgrammingLanguage__Rexx.tag()),
{
    reveal_strlit("Programming Language :: REBOL");
    reveal_strlit("Programming Language :: Rexx");
    reveal_with_fuel(lex_lt_from, 27);
}

proof fn lex_adj_533()
    ensures
        lex_lt(Classifier::ProgrammingLanguage__Rexx.tag(), Classifier::ProgrammingLanguage__Ruby.tag()),
{
    reveal_strlit("Programming Language :: Rexx");
    reveal_strlit("Programming Language :: Ruby");
    reveal_with_fuel(lex_lt_from, 27);
}

proof fn lex_adj_534()
    ensures
        lex_lt(Classifier::ProgrammingLanguage__Ruby.tag(), Classifier::ProgrammingLanguage__Rust.tag()),
{
    reveal_strlit("Programming Language :: Ruby");
    reveal_strlit("Programming Language :: Rust");
    reveal_with_fuel(lex_lt_from, 28);
}

proof fn lex_adj_535()
    ensures
        lex_lt(Classifier::ProgrammingLanguage__Rust.tag(), Classifier::ProgrammingLanguage__SQL.tag()),
{
    reveal_strlit("Programming Language :: Rust");
    reveal_strlit("Programming Language :: SQL");
    reveal_with_fuel(lex_lt_from, 26);
}

proof fn lex_adj_536()
    ensures
        lex_lt(Classifier::ProgrammingLanguage__SQL.tag(), Classifier::ProgrammingLanguage__Scheme.tag()),
{
    reveal_strlit("Programming Language :: SQL");
    reveal_strlit("Programming Language :: Scheme");
    reveal_with_fuel(lex_lt_from, 27);
}

proof fn lex_adj_537()
    ensures
        lex_lt(Classifier::ProgrammingLanguage__Scheme.tag(), Classifier::ProgrammingLanguage__Simula.tag()),
{
    reveal_strlit("Programming Language :: Scheme");
    reveal_strlit("Programming Language :: Simula");
    reveal_with_fuel(lex_lt_from, 27);
}

proof fn lex_adj_538()
    ensures
        lex_lt(Classifier::ProgrammingLanguage__Simula.tag(), Classifier::ProgrammingLanguage__Smalltalk.tag()),
{
    reveal_strlit("Programming Language :: Simula");
    reveal_strlit("Programming Language :: Smalltalk");
    reveal_with_fuel(lex_lt_from, 27);
}

proof fn lex_adj_539()
    ensures
        lex_lt(Classifier::ProgrammingLanguage__Smalltalk.tag(), Classifier::ProgrammingLanguage__Tcl.tag()),
{
    reveal_strlit("Programming Language :: Smalltalk");
    reveal_strlit("Programming Language :: Tcl");
    reveal_with_fuel(lex_lt_from, 26);
}

proof fn lex_adj_540()
    ensures
        lex_lt(Classifier::ProgrammingLanguage__Tcl.tag(), Classifier::ProgrammingLanguage__UnixShell.tag()),
{
    reveal_strlit("Programming Language :: Tcl");
    reveal_strlit("Programming Language :: Unix Shell");
    reveal_with_fuel(lex_lt_from, 26);
}

proof fn lex_adj_541()
    ensures
        lex_lt(Classifier::ProgrammingLanguage__UnixShell.tag(), Classifier::ProgrammingLanguage__VisualBasic.tag()),
{
    reveal_strlit("Programming Language :: Unix Shell");
    reveal_strlit("Programming Language :: Visual Basic");
    reveal_with_fuel(lex_lt_from, 26);
}

proof fn lex_adj_542()
    ensures
        lex_lt(Classifier::ProgrammingLanguage__VisualBasic.tag(), Classifier::ProgrammingLanguage__XBasic.tag()),
{
    reveal_strlit("Programming Language :: Visual Basic");
    reveal_strlit("Programming Language :: XBasic");
    reveal_with_fuel(lex_lt_from, 26);
}

proof fn lex_adj_543()
    ensures
        lex_lt(Classifier::ProgrammingLanguage__XBasic.tag(), Classifier::ProgrammingLanguage__YACC.tag()),
{
    reveal_strlit("Programming Language :: XBasic");
    reveal_strlit("Programming Language :: YACC");
    reveal_with_fuel(lex_lt_from, 26);
}

proof fn lex_adj_544()
    ensures
        lex_lt(Classifier::ProgrammingLanguage__YACC.tag(), Classifier::ProgrammingLanguage__Zope.tag()),
{
    reveal_strlit("Programming Language :: YACC");
    reveal_strlit("Programming Language :: Zope");
    reveal_with_fuel(lex_lt_from, 26);
}

proof fn lex_adj_545()
    ensures
        lex_lt(Classifier::ProgrammingLanguage__Zope.tag(), Classifier::Topic__AdaptiveTechnologies.tag()),
{
    reveal_strlit("Programming Language :: Zope");
    reveal_strlit("Topic :: Adaptive Technologies");
    reveal_with_fuel(lex_lt_from, 2);
}

proof fn lex_adj_546()
    ensures
        lex_lt(Classifier::Topic__AdaptiveTechnologies.tag(), Classifier::Topic__ArtisticSoftware.tag()),
{
    reveal_strlit("Topic :: Adaptive Technologies");
    reveal_strlit("Topic :: Artistic Software");
    reveal_with_fuel(lex_lt_from, 12);
}

proof fn lex_adj_547()
    ensures
        lex_lt(Classifier::Topic__ArtisticSoftware.tag(), Classifier::Topic__Communications.tag()),
{
    reveal_strlit("Topic :: Artistic Software");
    reveal_strlit("Topic :: Communications");
    reveal_with_fuel(lex_lt_from, 11);
}

proof fn lex_adj_548()
    ensures
        lex_lt(Classifier::Topic__Communications.tag(), Classifier::Topic__Communications__BBS.tag()),
{
    reveal_strlit("Topic :: Communications");
    reveal_strlit("Topic :: Communications :: BBS");
    reveal_with_fuel(lex_lt_from, 25);
}

proof fn lex_adj_549()
    ensures
        lex_lt(Classifier::Topic__Communications__BBS.tag(), Classifier::Topic__Communications__Chat.tag()),
{
    reveal_strlit("Topic :: Communications :: BBS");
    reveal_strlit("Topic :: Communications :: Chat");
    reveal_with_fuel(lex_lt_from, 29);
}

proof fn lex_adj_550()
    ensures
        lex_lt(Classifier::Topic__Communications__Chat.tag(), Classifier::Topic__Communications__Chat__ICQ.tag()),
{
    reveal_strlit("Topic :: Communications :: Chat");
    reveal_strlit("Topic :: Communications :: Chat :: ICQ");
    reveal_with_fuel(lex_lt_from, 33);
}

proof fn lex_adj_551()
    ensures
        lex_lt(Classifier::Topic__Communications__Chat__ICQ.tag(), Classifier::Topic__Communications__Chat__InternetRelayChat.tag()),
{
    reveal_strlit("Topic :: Communications :: Chat :: ICQ");
    reveal_strlit("Topic :: Communications :: Chat :: Internet Relay Chat");
    reveal_with_fuel(lex_lt_from, 38);
}

proof fn lex_adj_552()
    ensures
        lex_lt(Classifier::Topic__Communications__Chat__InternetRelayChat.tag(), Classifier::Topic__Communications__Chat__UnixTalk.tag()),
{
    reveal_strlit("Topic :: Communications :: Chat :: Internet Relay Chat");
    reveal_strlit("Topic :: Communications :: Chat :: Unix Talk");
    reveal_with_fuel(lex_lt_from, 37);
}

proof fn lex_adj_553()
    ensures
        lex_lt(Classifier::Topic__Communications__Chat__UnixTalk.tag(), Classifier::Topic__Communications__Conferencing.tag()),
{
    reveal_strlit("Topic :: Communications :: Chat :: Unix Talk");
    reveal_strlit("Topic :: Communications :: Conferencing");
    reveal_with_fuel(lex_lt_from, 30);
}

proof fn lex_adj_554()
    ensures
        lex_lt(Classifier::Topic__Communications__Conferencing.tag(), Classifier::Topic__Communications__Email.tag()),
{
    reveal_strlit("Topic :: Communications :: Conferencing");
    reveal_strlit("Topic :: Communications :: Email");
    reveal_with_fuel(lex_lt_from, 29);
}

proof fn lex_adj_555()
    ensures
        lex_lt(Classifier::Topic__Communications__Email.tag(), Classifier::Topic__Communications__Email__AddressBook.tag()),
{
    reveal_strlit("Topic :: Communications :: Email");
    reveal_strlit("Topic :: Communications :: Email :: Address Book");
    reveal_with_fuel(lex_lt_from, 34);
}

proof fn lex_adj_556()
    ensures
        lex_lt(Classifier::Topic__Communications__Email__AddressBook.tag(), Classifier::Topic__Communications__Email__EmailClientsMUA.tag()),
{
    reveal_strlit("Topic :: Communications :: Email :: Address Book");
    reveal_strlit("Topic :: Communications :: Email :: Email Clients (MUA)");
    reveal_with_fuel(lex_lt_from, 38);
}

proof fn lex_adj_557()
    ensures
        lex_lt(Classifier::Topic__Communications__Email__EmailClientsMUA.tag(), Classifier::Topic__Communications__Email__Filters.tag()),
{
    reveal_strlit("Topic :: Communications :: Email :: Email Clients (MUA)");
    reveal_strlit("Topic :: Communications :: Email :: Filters");
    reveal_with_fuel(lex_lt_from, 38);
}

proof fn lex_adj_558()
    ensures
        lex_lt(Classifier::Topic__Communications__Email__Filters.tag(), Classifier::Topic__Communications__Email__MailTransportAgents.tag()),
{
    reveal_strlit("Topic :: Communications :: Email :: Filters");
    reveal_strlit("Topic :: Communications :: Email :: Mail Transport Agents");
    reveal_with_fuel(lex_lt_from, 38);
}

proof fn lex_adj_559()
    ensures
        lex_lt(Classifier::Topic__Communications__Email__MailTransportAgents.tag(), Classifier::Topic__Communications__Email__MailingListServers.tag()),
{
    reveal_strlit("Topic :: Communications :: Email :: Mail Transport Agents");
    reveal_strlit("Topic :: Communications :: Email :: Mailing List Servers");
    reveal_with_fuel(lex_lt_from, 42);
}

/// Adjacent tags within this stretch of the lexicographic order.
pub(crate) proof fn lemma_adjacent_lex_d(i: int)
    requires
        420 <= i < 560,
    ensures
        lex_lt(classifier_of_rank(i).tag(), classifier_of_rank(i + 1).tag()),
{
    if i == 420 {
        lex_adj_420();
    }
    if i == 421 {
        lex_adj_421();
    }
    if i == 422 {
        lex_adj_422();
    }
    if i == 423 {
        lex_adj_423();
    }
    if i == 424 {
        lex_adj_424();
    }
    if i == 425 {
        lex_adj_425();
    }
    if i == 426 {
        lex_adj_426();
    }
    if i == 427 {
        lex_adj_427();
    }
    if i == 428 {
        lex_adj_428();
    }
    if i == 429 {
        lex_adj_429();
    }
    if i == 430 {
        lex_adj_430();
    }
    if i == 431 {
        lex_adj_431();
    }
    if i == 432 {
        lex_adj_432();
    }
    if i == 433 {
        lex_adj_433();
    }
    if i == 434 {
        lex_adj_434();
    }
    if i == 435 {
        lex_adj_435();
    }
    if i == 436 {
        lex_adj_436();
    }
    if i == 437 {
        lex_adj_437();
    }
    if i == 438 {
        lex_adj_438();
    }
    if i == 439 {
        lex_adj_439();
    }
    if i == 440 {
        lex_adj_440();
    }
    if i == 441 {
        lex_adj_441();
    }
    if i == 442 {
        lex_adj_442();
    }
    if i == 443 {
        lex_adj_443();
    }
    if i == 444 {
        lex_adj_444();
    }
    if i == 445 {
        lex_adj_445();
    }
    if i == 446 {
        lex_adj_446();
    }
    if i == 447 {
        lex_adj_447();
    }
    if i == 448 {
        lex_adj_448();
    }
    if i == 449 {
        lex_adj_449();
    }
    if i == 450 {
        lex_adj_450();
    }
    if i == 451 {
        lex_adj_451();
    }
    if i == 452 {
        lex_adj_452();
    }
    if i == 453 {
        lex_adj_453();
    }
    if i == 454 {
        lex_adj_454();
    }
    if i == 455 {
        lex_adj_455();
    }
    if i == 456 {
        lex_adj_456();
    }
    if i == 457 {
        lex_adj_457();
    }
    if i == 458 {
        lex_adj_458();
    }
    if i == 459 {
        lex_adj_459();
    }
    if i == 460 {
        lex_adj_460();
    }
    if i == 461 {
        lex_adj_461();
    }
    if i == 462 {
        lex_adj_462();
    }
    if i == 463 {
        lex_adj_463();
    }
    if i == 464 {
        lex_adj_464();
    }
    if i == 465 {
        lex_adj_465();
    }
    if i == 466 {
        lex_adj_466();
    }
    if i == 467 {
        lex_adj_467();
    }
    if i == 468 {
        lex_adj_468();
    }
    if i == 469 {
        lex_adj_469();
    }
    if i == 470 {
        lex_adj_470();
    }
    if i == 471 {
        lex_adj_471();
    }
    if i == 472 {
        lex_adj_472();
    }
    if i == 473 {
        lex_adj_473();
    }
    if i == 474 {
        lex_adj_474();
    }
    if i == 475 {
        lex_adj_475();
    }
    if i == 476 {
        lex_adj_476();
    }
    if i == 477 {
        lex_adj_477();
    }
    if i == 478 {
        lex_adj_478();
    }
    if i == 479 {
        lex_adj_479();
    }
    if i == 480 {
        lex_adj_480();
    }
    if i == 481 {
        lex_adj_481();
    }
    if i == 482 {
        lex_adj_482();
    }
    if i == 483 {
        lex_adj_483();
    }
    if i == 484 {
        lex_adj_484();
    }
    if i == 485 {
        lex_adj_485();
    }
    if i == 486 {
        lex_adj_486();
    }
    if i == 487 {
        lex_adj_487();
    }
    if i == 488 {
        lex_adj_488();
    }
    if i == 489 {
        lex_adj_489();
    }
    if i == 490 {
        lex_adj_490();
    }
    if i == 491 {
        lex_adj_491();
    }
    if i == 492 {
        lex_adj_492();
    }
    if i == 493 {
        lex_adj_493();
    }
    if i == 494 {
        lex_adj_494();
    }
    if i == 495 {
        lex_adj_495();
    }
    if i == 496 {
        lex_adj_496();
    }
    if i == 497 {
        lex_adj_497();
    }
    if i == 498 {
        lex_adj_498();
    }
    if i == 499 {
        lex_adj_499();
    }
    if i == 500 {
        lex_adj_500();
    }
    if i == 501 {
        lex_adj_501();
    }
    if i == 502 {
        lex_adj_502();
    }
    if i == 503 {
        lex_adj_503();
    }
    if i == 504 {
        lex_adj_504();
    }
    if i == 505 {
        lex_adj_505();
    }
    if i == 506 {
        lex_adj_506();
    }
    if i == 507 {
        lex_adj_507();
    }
    if i == 508 {
        lex_adj_508();
    }
    if i == 509 {
        lex_adj_509();
    }
    if i == 510 {
        lex_adj_510();
    }
    if i == 511 {
        lex_adj_511();
    }
    if i == 512 {
        lex_adj_512();
    }
    if i == 513 {
        lex_adj_513();
    }
    if i == 514 {
        lex_adj_514();
    }
    if i == 515 {
        lex_adj_515();
    }
    if i == 516 {
        lex_adj_516();
    }
    if i == 517 {
        lex_adj_517();
    }
    if i == 518 {
        lex_adj_518();
    }
    if i == 519 {
        lex_adj_519();
    }
    if i == 520 {
        lex_adj_520();
    }
    if i == 521 {
        lex_adj_521();
    }
    if i == 522 {
        lex_adj_522();
    }
    if i == 523 {
        lex_adj_523();
    }
    if i == 524 {
        lex_adj_524();
    }
    if i == 525 {
        lex_adj_525();
    }
    if i == 526 {
        lex_adj_526();
    }
    if i == 527 {
        lex_adj_527();
    }
    if i == 528 {
        lex_adj_528();
    }
    if i == 529 {
        lex_adj_529();
    }
    if i == 530 {
        lex_adj_530();
    }
    if i == 531 {
        lex_adj_531();
    }
    if i == 532 {
        lex_adj_532();
    }
    if i == 533 {
        lex_adj_533();
    }
    if i == 534 {
        lex_adj_534();
    }
    if i == 535 {
        lex_adj_535();
    }
    if i == 536 {
        lex_adj_536();
    }
    if i == 537 {
        lex_adj_537();
    }
    if i == 538 {
        lex_adj_538();
    }
    if i == 539 {
        lex_adj_539();
    }
    if i == 540 {
        lex_adj_540();
    }
    if i == 541 {
        lex_adj_541();
    }
    if i == 542 {
        lex_adj_542();
    }
    if i == 543 {
        lex_adj_543();
    }
    if i == 544 {
        lex_adj_544();
    }
    if i == 545 {
        lex_adj_545();
    }
    if i == 546 {
        lex_adj_546();
    }
    if i == 547 {
        lex_adj_547();
    }
    if i == 548 {
        lex_adj_548();
    }
    if i == 549 {
        lex_adj_549();
    }
    if i == 550 {
        lex_adj_550();
    }
    if i == 551 {
        lex_adj_551();
    }
    if i == 552 {
        lex_adj_552();
    }
    if i == 553 {
        lex_adj_553();
    }
    if i == 554 {
        lex_adj_554();
    }
    if i == 555 {
        lex_adj_555();
    }
    if i == 556 {
        lex_adj_556();
    }
    if i == 557 {
        lex_adj_557();
    }
    if i == 558 {
        lex_adj_558();
    }
    if i == 559 {
        lex_adj_559();
    }
}

} // verus!
