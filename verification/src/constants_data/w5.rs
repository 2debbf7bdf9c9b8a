//! The raw limb data of permutation width 5: the `(8 + 60) * 5`
//! additive round constants and the `5 * 5` row-major mixing matrix,
//! each entry a canonical field value below the modulus, little-endian in
//! four 64-bit limbs.

use vstd::prelude::*;

verus! {

use vstd::slice::slice_to_vec;

const C_T5: [[u64; 4]; 340] = [
    [5709486634755270801, 15603208330859234182, 9174926028928814807, 1059829148828130778],
    [13435151555604064459, 11643967437604800275, 17307293407029460924, 384168495989622370],
    [17656499060093797076, 6093508768815579189, 13607423987096732535, 3423784509791480680],
    [1807386625533712003, 7057527142772858611, 2614247787438821812, 3217556051884718497],
    [5676534217206202025, 11043273723905977437, 10497975883995225236, 2068833595310908510],
    [13396529737527378210, 2434120040341524674, 17916482132268545558, 3365589271740770027],
    [15418021208676454926, 1137117723951502262, 14202525191686707690, 2470832312318920103],
    [2556192569385911031, 3959577542639286648, 15613941884691717168, 1113534474368712942],
    [443316488524326115, 1851551941083068826, 11726935069089959320, 1125070165016089941],
    [7643403544667028384, 10894966515326481483, 8021655946622347554, 2205240841378904921],
    [14036960630577299004, 4395041454368048582, 9835113421217291865, 610243336402961280],
    [6480989746377831932, 14904178184753081690, 14417323833696385218, 2820547478722997370],
    [16415884019766327263, 5025231080565268240, 5439424799568627435, 139488021564701356],
    [10946573832950074672, 10270580329202598058, 5602635313366604563, 314019806692597345],
    [12534177755930434662, 11809597266636284807, 11517663152414195598, 775156918826687121],
    [15073100384172167476, 1141223120433682809, 14409728945282668701, 182983068691223728],
    [14999993004554296764, 5819103990952586505, 10822823350348882798, 2788880469346871884],
    [5400734615295706667, 417108559831873193, 13451178293129126238, 3437897604311791404],
    [15926352737404770384, 12505010425057301379, 4971751096952435273, 2455257435145554674],
    [6688065275224777443, 11756488339097930753, 6405490512371498582, 1946710444063352898],
    [12186288347468009215, 1463590592391211078, 10289879847026024147, 720988719790639979],
    [17839712777150320195, 11885908612911790119, 17531738362508399945, 3133193024850150347],
    [5484117929960390141, 6967141352294906880, 5545997647314465932, 3013640116432554142],
    [1863895427737075742, 11828441638860349917, 6297189109671795316, 2037460044600332947],
    [8330218780817429097, 3902769326585237376, 17541874437619808480, 492970902720138098],
    [1085521930605466380, 15878641196749475222, 14213363123603915022, 2954323733505425718],
    [13325032106070099433, 13720200562067814061, 17896723074015824663, 3343913851502109333],
    [16693702715190546215, 14579987761459750204, 1051575468067101229, 2796235066704695395],
    [12658691410024947121, 4813007794191410977, 5609127907338747884, 3345620110661121987],
    [4056358364306004172, 9840596591682916934, 6886522344944850171, 3073512637182560756],
    [3368915050432525310, 9975808783723075646, 3205446996530476123, 2917602595669473966],
    [1288767484872571908, 11948912309388552763, 17628221439889849725, 2390234503652240046],
    [4037972413180359940, 17978327329879284409, 1922950502481311840, 1248895466487252671],
    [15741345657436226055, 13785890714328196483, 5059654587595731311, 2161555772451975618],
    [7199633339120426588, 4616650645556307240, 13871600651802349122, 1028023043121434230],
    [18407007357199773688, 9320045401694561059, 12370093193055634161, 226246388256237252],
    [13190810660770529949, 2718149974683554093, 1818251906882749583, 1329806251377889369],
    [18231871688567038528, 15305140525692147518, 18274372773902298229, 1257550829557295000],
    [6907193654582068186, 12170258066876559038, 8561876523466805565, 1429079314231569736],
    [17628653266216073889, 14659907551036239847, 18414598187998091075, 38082767495671121],
    [11757304474605908111, 1074751533573117910, 7335839785634907386, 2512764582543145048],
    [10085225350110507349, 10972216360679106241, 9730225146006207550, 862831660412066704],
    [7616771925528817458, 7209028748629977484, 11746159820621225486, 698495116519298492],
    [15453075522789613123, 18139310771595982445, 11871420266552606811, 670848552474226230],
    [8669391628108296223, 11809072369959895499, 5881602578926877205, 2997632299147874832],
    [7590634728973810979, 9525143785790755126, 2065267353424291968, 3416148269733115447],
    [7068200716974095563, 6223388776565523192, 17012022004637386560, 515256071297219609],
    [12018234027717710495, 7088734015651079817, 1385419247248460267, 1757100601503993264],
    [533928697388275500, 13149997190323249781, 16470046317097510365, 1775534490766120918],
    [8888284565823907613, 8241074171689122304, 8632307772207956108, 730139602187139288],
    [808010436049238946, 9451016593447599040, 2283147949544711458, 1563459131374585471],
    [10147328920399769953, 826258488857654648, 10090518116967673174, 1606501261591911664],
    [8801430400155757168, 7045350816033990237, 9716945417499119347, 617197692902967919],
    [14712944074172918050, 11972727648492947340, 11828443723872724202, 3440368405956187173],
    [1170231525117704874, 8894791295596935609, 6053686325770909790, 329535971000777301],
    [7680499207910572622, 2117120264201660255, 5629540337850598102, 425906726507201552],
    [9095030953212800028, 11050591183035472955, 10652248742236441296, 1368632629978772280],
    [490049980730472526, 2244527621709318505, 10776963427979260947, 162504167597104455],
    [9805393244268549456, 15535309122138455006, 3957859653679567034, 1766055410268090186],
    [13476626328037709989, 16106180895415260427, 16857630767377661405, 903895511449916699],
    [4905425530068338150, 6507603054411034502, 3908572617951655548, 1671503761541126257],
    [2073574377898262574, 16523838148121299959, 1310366031267041073, 363359316019713305],
    [6301077409336986688, 5457063769613363592, 255775579631400566, 1084544637655443779],
    [11365900716619365590, 8769527431760125012, 17802679792080338202, 2021982742846540237],
    [18326107955115426278, 5313723800598452473, 7866595442681485214, 3157297394972060537],
    [8999684224146367179, 11560383071262436630, 5150077941561111423, 2876423446573371027],
    [17388888965788871402, 2904748300632551856, 10346665908224294051, 3335067085690011226],
    [6945883126069584645, 14522172750187029979, 6714521702291577219, 1819423304397913404],
    [4020327993758180645, 7968664068098072142, 14862258134802252013, 3166884234040405115],
    [11525531993204439848, 15413539024102608114, 12217381135254859101, 1364993305495252294],
    [12506948078507994415, 3743570834341252080, 11539961906053632415, 3058529624628730355],
    [8637756393200003444, 733413615448698409, 7909587125510003807, 2431396432242894053],
    [1405075490168587338, 8194387178284537774, 2830973839694344794, 1021611356878984971],
    [11474898985784393262, 14058790042889037276, 7021295737499818124, 2767453154966479140],
    [9443503600510579717, 1535939863509986162, 3505915654255700346, 3228077367003398151],
    [3370106638778134109, 12568912046903135268, 5693114279715143711, 614893721629633699],
    [7696595949199900458, 11588601762137737395, 12484221445992807895, 186753376831814838],
    [1204125732958202778, 13821512999321439894, 18262015992342488648, 1300639660169017180],
    [11583023990583000892, 10554320165488737651, 14419993394135304588, 719118153791737491],
    [17739907610767338863, 1003136618105596810, 741740501086433530, 171297302681240789],
    [13332059161446922644, 2685214475529579260, 13510722594825814817, 2972457816835906423],
    [16654332663712744441, 17437894212935778941, 15341648630208093006, 2830872302208069433],
    [14363524761672196642, 11739726288968853258, 4148144355494233547, 688070129514684274],
    [113100990117648694, 8469808637894479268, 3540830240629423452, 1787636037085521022],
    [7183991719641800288, 4376386839113169293, 15341308121272512797, 1375700400724398208],
    [12179941823238500349, 2795695192257127920, 13873608510470894166, 147676055085376574],
    [1648361686689300514, 10651355104533709853, 18050526472939277750, 2820114206656614345],
    [10401013854774175772, 7248473615532823875, 15442805964935438712, 100303024497986305],
    [18287510897546856003, 1840127135088837996, 7945366276415480415, 3184678123790778185],
    [6555141981764355528, 12691919063799037579, 4975301142146589409, 1135051004262689000],
    [18341552195368198638, 13733236756286064510, 15622365155513083315, 2329136663412716041],
    [10221479030229363136, 856618301502588506, 12652535643945313049, 2946516207180905397],
    [5320687108831381146, 6185322572898180277, 11491000713646067126, 2695840496051952505],
    [3808277647320436021, 11716033137413860033, 14956449940154683465, 1588250600712739415],
    [7233954208810529748, 10051167908532039840, 3808275709781341119, 2434505909465367484],
    [15062699372733100876, 15486366370265760694, 15181796272438846277, 1930029994119981174],
    [13320467532645982252, 6737992616714261828, 8941442567095734818, 771213592162700174],
    [14245487589991330679, 11902719074503341281, 2874335296205595164, 2046694175812231342],
    [903693634869390661, 16391495424045209437, 4437326617789518562, 3232398815996129277],
    [4488147173559909166, 2608555397427888003, 8596235329438933811, 2573108608164239280],
    [3403913031559014821, 942162471765852437, 10139626071512437409, 2206248357169511071],
    [6970680459015168731, 14531811614219641028, 12376990325905483590, 1009337817565442097],
    [1407331297170706024, 4843656659678829131, 8894933843402347972, 290628195454438396],
    [11574670931530847848, 3836810854519963344, 897522105680914998, 1804570027951569232],
    [18170003560559622956, 13970112605287735653, 15010307325935066120, 1605470779349943176],
    [9524648511222862877, 11480965008187493122, 8761894689994913318, 2607584610634175583],
    [3612314621152024495, 11350541119748750027, 3913917951484028918, 1692115445034325985],
    [4157135835775235320, 706312872307278388, 5645409649616610086, 334428445665729257],
    [14842385381414034575, 16007026201832287436, 1178404862798321680, 2724925126993459708],
    [3192295646244899367, 3606452384826060101, 9624294380582280924, 308335572121809661],
    [16823213836116455342, 2029143030596177077, 10072804297993326058, 1193665791505825147],
    [13774428559020267454, 3994461161768993038, 4938885682379412909, 2682242001837321552],
    [10939600771648611888, 17114315788958381094, 18196283229494728752, 2707538640781833457],
    [285766519571309302, 9965680037255807106, 14423531322980661711, 2564460582677822438],
    [12966089842574379140, 11807471102694565813, 6118831181689104304, 2784178156394296713],
    [12078906763471841431, 14527355876024606571, 10191387802246861944, 2867122240254964385],
    [10172790104122789974, 12400088934858119197, 16457890121600675022, 2799595181320361852],
    [8257098839150873481, 7302433696222926197, 8087955122552490444, 390321479958236083],
    [3274850261246896784, 13989666574848249877, 14370160240413383331, 2754150729801749678],
    [16896315381358951663, 14068759961286864000, 3671720959751062781, 3478842401657181703],
    [8442781705012910508, 5254689592339415056, 5858925122295352311, 58954162139295235],
    [14233878450320842659, 13095526981216015385, 4880258613542417146, 67025388743409756],
    [7059719515083757938, 1198414609893623692, 5365675712779130365, 791220511478963530],
    [12148861395190959370, 7323473682813839966, 9713778313026144494, 802847944142620766],
    [7673534841041542614, 17782164550804299175, 14552110062054305941, 2335975000578901431],
    [5964983632670572700, 14627625227876630184, 13156956748162174166, 1147191930313198716],
    [9328055929912841683, 4253352092437934305, 9882715272879407697, 2688015300024376075],
    [3995149027766863714, 10810545371484326635, 5067981747140254177, 782976760767467030],
    [2424495528909854553, 7828620474956046690, 14382529426264553052, 2788391716648861335],
    [1828656086397303715, 11846010299176704859, 4700505995351656421, 651216236940542528],
    [2987038348368362363, 16937350183057961460, 14227602846790176419, 638345862898979314],
    [6409027523929511839, 4827467688296491879, 7466879624955263203, 714009272291692951],
    [8919315857020435804, 9150490530548730187, 7318440275644219756, 2155822447507750469],
    [3890376857960646777, 2632802482862050035, 12188693035483834862, 1848462418812637336],
    [16975100403542597476, 7364856775542612977, 9770989273425938693, 2438544605350394762],
    [17794960278834395393, 10927615196497605447, 4476782966043432403, 716504515174063217],
    [631089284022079939, 5258550190258919894, 3039943363056277901, 409622590419322189],
    [18019742707438105875, 6859948797481481580, 7370816837197911859, 1126359324505867077],
    [6009311504365685680, 17593329328336549624, 13664116708447278403, 208425853984490400],
    [3918721654536867602, 2320498700366006544, 13328700483947996343, 1510803646773488606],
    [18424386149805520844, 7217790796851026322, 2692292334573092238, 1165755894729726019],
    [14674564491561366466, 2365734759741081400, 5496633202064214563, 305635596537853661],
    [5547786795373108986, 8002470448966807663, 12015835365913195111, 2414835508500984212],
    [15876075074264968019, 16955711904879288010, 13003201099741621411, 1092150559820932681],
    [10650562521192347862, 16096531191964161500, 4931613628074197582, 954240267382229995],
    [12447883330461826116, 15568803910144965449, 6268880946420571701, 3231322019897013865],
    [9718070987370937592, 10469129982285258106, 5551029655348661816, 3020045394956712287],
    [17920884006027313470, 11161262496134720343, 2769428621149634831, 2511432701511790609],
    [4829879170758956362, 2453819263386509110, 3468696503637552291, 1145835211886963990],
    [14402651019371599487, 15209447864596619244, 1314003187648545338, 22773371006195977],
    [9825935037949840417, 7381291897287792581, 13705804225604056883, 2391591342793953826],
    [16272394848994314746, 12278628011936920192, 15624544290159881252, 3312940862092057059],
    [11868951356208785250, 6346455430740642539, 17469100720285283649, 2015315635322326028],
    [6721473816800267860, 14950684637259595747, 7055723592049930550, 891765096194151815],
    [13132407457834696481, 5860317854772441006, 3621032117985750397, 3337416662628082181],
    [12995438244769510113, 17758987863531232066, 6273749752756893570, 1712019909642794370],
    [12874425050650591912, 2392391425869992694, 7495094730181281883, 796383900875814695],
    [7032139753104915732, 12226278783928786245, 6436726381336856135, 1105127791863707973],
    [239983887705380210, 2627867924265101609, 16231587218416801105, 1062703082072258564],
    [7357493123626368994, 16253373127767919191, 793361554790392643, 1945295314229020648],
    [6274567990749719559, 15272583616294916083, 15718800468384700514, 2379107712229126241],
    [13347211085114152983, 1860517649335717956, 9040357696066002366, 613106111092773061],
    [1703722798126366266, 10146217014289985622, 15711049494382043079, 2035781123800346785],
    [10438621924301879555, 10339270121508848644, 2508917386631645029, 523851184678325279],
    [11554793405455260863, 14908413423927086863, 9822997141758841268, 202748415721807293],
    [12114035578311703315, 16977240533387309338, 9430888078137768792, 3366335244457011472],
    [16574104354912409525, 5560475216086729476, 2999245442738833845, 3386046658006436592],
    [14202985707561738340, 7036660083952681236, 3377065140806511951, 655728715918003812],
    [8509583055897105762, 14656223418619783674, 5607854391113184693, 2777697308730276252],
    [83409972693178588, 10931448580963985031, 2787985057451628422, 2523043090752145176],
    [3965207605377629151, 13570282371265620178, 14118857344238770466, 2865755440181571298],
    [3181669039585700622, 11054565928946536692, 17306163681059473668, 1297503429719680536],
    [7833083828861813821, 14626761102958126448, 12502578164971628990, 3189417786992285342],
    [5744768478049786180, 5712477148861705788, 16862537335286580873, 469317136988606528],
    [8609012027791823235, 12700817345624676731, 12662216778238906735, 239912365325200182],
    [17128196222445424235, 8362037870518827120, 15230927375655180072, 1888066338791978521],
    [17526009840909487224, 7964887651198928870, 7471682897303089049, 2305395957413907669],
    [1188754600960045971, 1445054447668184195, 17055230506963927284, 1141220517878434047],
    [8927042020248130475, 7819963812187330378, 1833972566751359358, 2754714916437452536],
    [7978091822771224646, 4312334471452266461, 5788486310253445438, 1631470628296003682],
    [18214236100628811162, 6038255975158901001, 12498948034097574114, 3298060600585666828],
    [14648704397912405733, 4772779286087826050, 2004606313472449955, 2656999043651885918],
    [13687084048955302415, 8514095339415836001, 4383628104390689512, 3156061263155677039],
    [13009747483354109919, 15215797625120686054, 10224664515299492905, 534836028911127693],
    [12218542376675395297, 16433319893041976445, 2019054853780299343, 699731440351423555],
    [469411707172125703, 7271415981873885674, 12288307584237414059, 2332609180314279470],
    [926931044104630313, 654853666374115698, 10459109597131065037, 2890286664896673487],
    [5402706510652776949, 43422908028986638, 6867258550918782195, 1874973438295736564],
    [9328124957053290060, 7561486090771349225, 575190725244637012, 1156800393303211568],
    [800711763403098568, 12864820122923860680, 13513018588550182751, 1657929886579730775],
    [16195632571371287762, 11509148164698085133, 8143979856621818147, 1190880486359104651],
    [13285005716169965668, 3117048831037231983, 163830414078914476, 1529059912510060083],
    [5881231704952180744, 5166095322549571509, 5473188310634228852, 3367383689734614338],
    [15678994885154927240, 5544626209461953518, 18357728644529278042, 1966769599675967020],
    [13130243332324085847, 13495728433422908000, 9232167592519715579, 2622508108522154117],
    [7929354413406706159, 15753316487826704575, 674514880695311255, 1247271618748221901],
    [17161204709243777352, 3341201543508623651, 7726062425692666284, 3154505451567754031],
    [1361384503448196117, 12070571389831899300, 8601376529521211318, 128844595604546091],
    [11478215353676852891, 6183360331803957197, 8929987327891852995, 366112076185856648],
    [280102981543402366, 2347028563324174767, 1878892246125318305, 2773222228711656648],
    [18092398926685398486, 17393504928101820764, 14379013647835099309, 2960850892807723221],
    [3953414371045905689, 6660552975301659317, 12624686877119585331, 116929218233867827],
    [6054474205023133929, 44711546241489070, 10030799078001482791, 1802753000306398282],
    [4292821355928616730, 12956541524238595655, 17865854030728979490, 2806156480638338681],
    [13675964982855241589, 4666984869414769438, 1818103439487051072, 1929344896460137532],
    [11902874548928800317, 14770672448389609837, 1832312237996525414, 690978606290832647],
    [6063449929115748377, 8417634495416762043, 18253319861700640358, 219717477558047188],
    [17159399771644920975, 12962806624716596802, 4130705766396366729, 496431055902871085],
    [11757078959090340206, 7335119905500778835, 7739577677175619829, 2119848888677224481],
    [4455058425522762226, 14074181888688630787, 6462737291599350472, 2946722748897358122],
    [8807701991395719700, 12713989709125138284, 10146407990324147878, 627698407660074320],
    [9900106143898483538, 13185842599889490794, 4921254382530593179, 1597883734980539889],
    [11064220335754197622, 13099187637999133649, 409646222161104732, 2950385777779579836],
    [6931498028256841232, 83266748746985782, 11787520182635880362, 2007204825524584797],
    [5778855809983662539, 1137590398495115915, 14639255051103796750, 2555093039624263824],
    [16802142277011487568, 3687824109001897046, 12500960564627456570, 2281185566478704563],
    [4575542004743501460, 5107921094990697359, 17901948646788090020, 2184154756685014769],
    [7039396633942032359, 13419548556790813650, 7923791060795369352, 2383062610300004861],
    [17627378779120518565, 17591166683133616961, 5732565754540229400, 3335206118123032234],
    [8470467745026149305, 1940182863326563499, 4319886157978011681, 928198184793251711],
    [9558967774780069067, 10215857554512039452, 4378506136792455284, 5002595038465673],
    [1488665627850152780, 14582903516020978805, 9988427545109060535, 1718017637807795242],
    [14605175186665772538, 12801679152113609262, 15885416346114665222, 1848678874574705555],
    [12280256903764785062, 3598452616449920423, 3062600776759280371, 219551171499380154],
    [10624201023757226908, 10618692974840400588, 12548626186719541294, 1638382584950771955],
    [4117798026031917853, 16582575931142142829, 6819835800666057111, 1311703381887486626],
    [15891269240374992884, 13443239741558852, 13198528451933441156, 1046754006555443280],
    [15013033422967566946, 1176180032296643348, 15228887004232545037, 641458659369647462],
    [16216416410401405720, 294366421203411150, 5132081976262007308, 3360005852781475528],
    [7371742751929268847, 4725815944490859199, 3766944442648453904, 3299575789787986114],
    [14288275424666151531, 17507378665460297636, 7147950760486577331, 504296321175420548],
    [14281095096307545904, 16331756546805787178, 5185835312275082744, 2623928114884905113],
    [6671717386641172113, 3423978651797322455, 1761363586765033189, 2496741325155617680],
    [4678122793411995959, 13336934586771147425, 8176736772905116877, 3408187286024608198],
    [926108520172050046, 4102984363646637237, 1419055328559733278, 1224899567962889341],
    [1875020499501188014, 8664968792210139055, 11877002815986291744, 1052980148648989630],
    [11810755844422118209, 11629824305528605048, 13993619618664457391, 553807122640674426],
    [16807702006602056645, 1889596758087546424, 17932771665144338029, 3287119345769760609],
    [8527131019902346439, 15231231883520694340, 3736609991259285233, 2878251396302793555],
    [9101037612689293309, 1733562185909622221, 6102942971475941242, 25044935775671859],
    [8109123196916508117, 12700513927025006429, 7464008331348751422, 294466490178697225],
    [9910328290573796653, 15673091058142672485, 9179231419817839852, 30052529763335900],
    [17025478780995507096, 17009141474151213476, 12815207562869617542, 86041182261310036],
    [14916781907843347894, 8617491479631120803, 4699756985432842883, 2038564182705360762],
    [15129725906738103798, 18365759193123172023, 10693042721751213177, 284473062826207103],
    [5580934352231849058, 9949422275242563926, 4114615192073251172, 3289721931800177417],
    [4036961375486364163, 14543354548447304135, 15859429380945806030, 1524332561342362829],
    [10184897397777549171, 3811046567907986031, 14515963783786338516, 1368574813167502570],
    [2427563288811938742, 15589339873089097070, 5496028829135981695, 1484952576280647050],
    [782581084919554020, 6188021743049485466, 1716314670587919512, 581782065792924805],
    [3055295659757323803, 6149687040474626794, 15627349044471245439, 210980398022255577],
    [11614854049965100472, 6189604886238030699, 5614687093837071006, 1062013039803595601],
    [4967036864369237849, 6175534131639722123, 416225131083137666, 1569316271941168194],
    [14023783437394539306, 2071976140556520389, 12749004067480607545, 1627230791698565021],
    [7895199330101514223, 629873512935339881, 2560562891149348886, 2686291348451397528],
    [14846477286382657649, 12103677888874160534, 4360940949427869580, 1461238084872979743],
    [6651380376462260121, 15251518547733286239, 14536197351081746911, 313678643220735678],
    [88818322596669059, 1475646447664896912, 13273142235796579312, 2738923099393915295],
    [13263133181777614401, 8344627666578193989, 17854879810365171208, 1603189878507795195],
    [12650294746586082856, 1432261652621133448, 2132053242684233196, 3202427219973585717],
    [15360512030853128102, 15985006323135594466, 6537683384293731321, 2023912708655445175],
    [12160774974824262769, 7364989905338403326, 6799014758274713554, 479240729805102078],
    [3549237303441478762, 8420565468489815495, 14254608929544954003, 1242246187298922773],
    [3216035503911756033, 16516091812200812922, 4107168336500645954, 3078369786887460326],
    [4143399440429535667, 3787581752132941053, 10819670249736607046, 270528958859181566],
    [7700878353165870748, 17867604143573468268, 9800199870281981345, 2812898632546730040],
    [12294196642566225421, 7411650708048843532, 15349627483881451836, 3306533629975834356],
    [2690711955809751041, 2938379807394406205, 18256805720914799149, 991083231436767442],
    [9022058399388238639, 13608821356334005884, 14512947250862160597, 1759205098447077732],
    [10118800521569069101, 13120837696218294484, 17880796844788881475, 157295733400089035],
    [1208845691662640828, 10591518486504784486, 4126683826145267314, 2402061273137157790],
    [4514175333862125189, 17008975762970833883, 14621273070144435387, 1000285626847367034],
    [7156747194887841123, 1328408009156420475, 14974006916442217016, 422129178673200811],
    [14519134777911082334, 65172331912703436, 15337251019888841516, 419983324069761982],
    [10525723912405416750, 17345191957055522695, 11233389717977818991, 130033417631398955],
    [1948407342328889468, 14184022161102919879, 12646255086095158835, 2289701183813746518],
    [6236939965459771330, 12241212284588186051, 6723128386751013931, 1171145861623894068],
    [12107950093807627533, 3108021775422920984, 18387231574638938701, 1636948764305594080],
    [4376967622653069134, 11763526356269277121, 4849033279353112774, 2368877719597800299],
    [16120632139181852173, 445245133872589451, 14002981313048047864, 149371037126421166],
    [1425408658431716873, 12695014242201371714, 9699083012147602300, 3398308367620850754],
    [6356789037520473082, 8340278624526149708, 2732721540707278898, 685895601485874645],
    [16937731612150657064, 16470004808479920540, 948460544166273549, 939011978783580272],
    [14885134368029427012, 2426534594091165261, 7460585543903677144, 1037461350089688367],
    [6167501161436189195, 16361081704872408742, 5190670340798074974, 3323806564254138658],
    [5359514086886521557, 12551034672382814710, 8548026703044016833, 2993191357213585363],
    [4212206843832341593, 10484668710603262526, 10530208684846006478, 1240210518416376119],
    [3803497717205177400, 15069792170220926572, 11905794531976505973, 2201417216749689469],
    [2391097777429514035, 11583876448048344209, 8910392397684641315, 1675169384077586146],
    [11032647648435690969, 6748045335325874640, 12677223729910623294, 127065795601637147],
    [5363601621991417186, 17471663781493639572, 12293333590476555775, 1392646584051019188],
    [2373898905902796084, 44248602955561707, 1756657973412269796, 3340190041184959661],
    [4762317713679402332, 1431780653842643475, 15001188798291269157, 1809704187742601939],
    [17183829475327805598, 9412607285544869533, 9413196116529731997, 1285769799236396610],
    [1994259360536775025, 3766640194245914517, 10445988104194594711, 297677234941471213],
    [2861787368689948381, 178863829444205618, 325270493538525698, 31656243235202131],
    [13969045486663022689, 7451234827061499444, 14440141729824382363, 255078570206288295],
    [17408770430530332389, 1097136723036802026, 14818046407305698509, 695224478106610304],
    [11319271188276235660, 4440207966828541768, 13360422271946804056, 123154667680778184],
    [18363742150646650022, 6079396326119036951, 7933925134479660057, 829909496406889999],
    [9640728957051940835, 16939467272560297209, 955783664750297152, 2568854559281306470],
    [17811509850728338004, 5491017124820675788, 4493653676865691295, 3315622009556794932],
    [4022867939356212040, 5443937916418767340, 9185663938977480694, 527710097306213453],
    [11088573932220863911, 177069936983375916, 14071957416844695461, 472746101392447962],
    [12931016570370654901, 9693766220869121464, 7454992397969437689, 3145493929170163017],
    [13285793107312707624, 718616179054072457, 11760255282741334547, 3190372593878739958],
    [10867922948973982871, 16403565789991507314, 72227104662153345, 416004673671780391],
    [4235857543940225137, 923382658745620978, 9523486069434540742, 992542752251476965],
    [15156225351992686236, 250184766665577054, 1861280847398113191, 1453881493605351294],
    [70395964386404287, 17541387128294515548, 18266157641642938272, 2999431416009894036],
    [15177604654879029878, 772904652714104247, 4090575808463432803, 370983943932829777],
    [17399603568686669256, 9085536577522771534, 17327150401327735414, 2197894926872057217],
    [15827162580613887356, 5476979545962947887, 10615274688464843987, 253885204329352649],
    [17679147757923789313, 14964290588039900954, 16259729195935655327, 249458143455347011],
    [13250928065650914484, 6905545382526877776, 17377821213224771310, 1387559047428335897],
    [8873304464238898407, 8336117018266486117, 6237605655745727191, 477012629360675571],
    [16868524488281765526, 15164289555784247810, 10787122273164977734, 1665218614759864035],
    [6157846160241118936, 14681113809190819577, 13180723030729768580, 3206986575570531612],
    [16400854778944660996, 12703309859695405356, 16407527883178199850, 3015234443533956569],
    [12062501223658910347, 15627876247206309082, 9527009653284112208, 602754543984529725],
    [11397023899480736660, 15848691892499165228, 1199166578831077420, 1261574573335518634],
    [1177762458650108695, 16128257840517341021, 195358346922395069, 2312938868822530044],
    [14982738250366463642, 5078176838250319246, 16319520210525855805, 760026558334857642],
    [15352133508426897527, 7281025369336364575, 336598789189337270, 1731133775445386442],
    [4511254541159486315, 17896364464002809542, 310632999827888291, 674538711646592601],
    [10178284298849170576, 9490800502366439297, 2366764744498989589, 1712245956675385219],
    [16489097120957245723, 4330115892299785741, 7670236975993787549, 412198438385430923],
    [15478437314088958587, 12328028551718445948, 8067932095009120967, 2764024201695511687],
    [15476768366451783977, 608011486596805811, 15689385031316221801, 2627053544744446920],
    [16538265882335858430, 8707187308931673829, 11590134941561014305, 1477543645720160846],
    [14362607902830559421, 11059870933236644669, 13646003024394621825, 1215682938406659193],
    [1965138206652372831, 18017644324325858563, 9182958445625928963, 1510868026331228511],
    [8486414050989499785, 11379692271515198695, 11498370395078145489, 1940858616016228789],
    [10741670830975209306, 606906424023356930, 13431363977478012475, 295325938905970318],
    [4008575113225383096, 329884205540213144, 6285846968494949740, 2775975067878839761],
    [7288857083489334191, 17703072143096546604, 16950838741026506697, 2321306227105270117],
    [12686540033356000923, 3512332126132631636, 8533023432103258570, 896544630386252957],
    [3987710779638126233, 8862520448144452771, 2859725960167679616, 576827625135236734],
    [13055946278812575396, 10936109118879230195, 12117579633153370667, 1841135627386813122],
    [18236614538741146994, 2812975831053997165, 12842930442200455075, 3020540840880296833],
];

const M_T5: [[u64; 4]; 25] = [
    [5748560962366832033, 11466979916847568886, 579569008118457398, 2674715827031838848],
    [5212077121234302821, 18313582893206132451, 5173461357374052295, 2736869942695514032],
    [7971902536992323635, 7920515792123700309, 3845856292408103344, 2971638520741306626],
    [7009273702295781828, 7375099962815381215, 10808940011733010243, 1174597919655905374],
    [4527728475262011767, 8731133959348414911, 9073132789881727545, 768485934559375121],
    [7635397639335626809, 371832689374390889, 13852535625055263490, 3058148595291901147],
    [1250749652313886074, 13447628286476990841, 7139799234418280987, 2887181629368966772],
    [13288584625014402103, 10145923708961862751, 816214975370426931, 2937119018259380575],
    [14189874474942401043, 11196632074693646556, 7872992026635568059, 2416322220620954964],
    [3822823683466938689, 16722027105816434506, 9230509609244479275, 1503557939615592923],
    [11887959819863015453, 6176999147643262618, 16043003182785902573, 3416445520537697479],
    [7884174877245911122, 7474340593201843825, 12507369967952837554, 7915235535248243],
    [12103886558629708587, 4162465562863683183, 14857142721807016900, 1565437278888115300],
    [7279257234337681308, 14675055849775582610, 6410412150051602591, 1353299449905040985],
    [5989438814592684391, 12639297900496483432, 5260628926173581870, 3385628920950297416],
    [17415374429808097328, 4341463741422707988, 1838002315875461537, 882429594306981653],
    [17124788337805206382, 10029232897166297715, 18047536113072813296, 1003270167506407941],
    [8991257380578735866, 10968035383490218235, 2315510005694667104, 2037925172591850975],
    [13309834195327537482, 581716623130446431, 5941134273328944182, 2748829959026088514],
    [11509497001386452255, 17113389287907895483, 9725467663124186377, 571983162659663312],
    [16354694695851275669, 8961694600247256475, 17977416854754739178, 3035676445061250450],
    [4628295235559466313, 8076770176523098564, 12320474853942739182, 1173741998614951199],
    [7041705240262253710, 17236817744044256085, 7494037994470992715, 210732847386178741],
    [15342584230641263483, 13676142722266711070, 7496514862548845523, 3258946873459557446],
    [14523405368506605156, 12942301318929430233, 14532296991539854921, 1443205430461869185],
];

/// The shipped additive-constant data of width 5.
pub closed spec fn c5_data() -> Seq<[u64; 4]> {
    C_T5@
}

/// The shipped mixing-matrix data of width 5, row-major.
pub closed spec fn m5_data() -> Seq<[u64; 4]> {
    M_T5@
}

/// The additive round constants of width 5, pinned to the shipped data.
pub fn c_t5() -> (v: Vec<[u64; 4]>)
    ensures
        v@ == c5_data(),
        v@.len() == 340,
{
    slice_to_vec(C_T5.as_slice())
}

/// The mixing matrix of width 5, pinned to the shipped data.
pub fn m_t5() -> (v: Vec<[u64; 4]>)
    ensures
        v@ == m5_data(),
        v@.len() == 25,
{
    slice_to_vec(M_T5.as_slice())
}

} // verus!
